//! FEN input and output.
//!
//! A position is six whitespace-separated fields: piece placement by rank
//! from the eighth down, the active color, the castling rights, the
//! en-passant square, the halfmove clock and the fullmove number. The
//! parser accepts exactly the well-formed positions — eight files per
//! rank, counters in range, an en-passant square on its proper rank, and
//! castling rights backed by the placement — and the board it returns
//! satisfies the position invariant [`wf`].

use vstd::prelude::*;
use vstd::string::{StringExecFns, StringSliceAdditionalSpecFns};
use crate::board::Board;
use crate::castle_rights::CastleRights;
use crate::color::Color;
use crate::model::{
    castle_ok,
    pieces_hash_below,
    wf,
    wf_counters,
    wf_ep,
    wf_placement,
    wf_shape,
    BoardModel,
};
use crate::piece::Piece;
use crate::square::Square;
use crate::zobrist::{KEY_CASTLE, KEY_SIDE};

verus! {

/// An ASCII whitespace byte, the field separator.
pub open spec fn spec_is_ws(b: u8) -> bool {
    b == 32 || b == 9 || b == 10 || b == 13
}

/// An ASCII whitespace byte, the field separator.
#[verifier::when_used_as_spec(spec_is_ws)]
fn is_ws(b: u8) -> (r: bool)
    ensures
        r == spec_is_ws(b),
{
    b == 32 || b == 9 || b == 10 || b == 13
}

/// The first non-whitespace position at or after `i`.
pub open spec fn spec_skip_ws(s: Seq<u8>, i: int) -> int
    decreases s.len() - i,
{
    if i < s.len() && spec_is_ws(s[i]) {
        spec_skip_ws(s, i + 1)
    } else {
        i
    }
}

/// The first whitespace position at or after `i`.
pub open spec fn spec_skip_token(s: Seq<u8>, i: int) -> int
    decreases s.len() - i,
{
    if i < s.len() && !spec_is_ws(s[i]) {
        spec_skip_token(s, i + 1)
    } else {
        i
    }
}

/// The first non-whitespace position at or after `from`.
fn skip_ws(bytes: &[u8], from: usize) -> (r: usize)
    requires
        from <= bytes@.len(),
    ensures
        from <= r <= bytes@.len(),
        r == spec_skip_ws(bytes@, from as int),
{
    let mut i = from;
    while i < bytes.len() && is_ws(bytes[i])
        invariant
            from <= i <= bytes@.len(),
            spec_skip_ws(bytes@, from as int) == spec_skip_ws(bytes@, i as int),
        decreases bytes@.len() - i,
    {
        i = i + 1;
    }
    i
}

/// The first whitespace position at or after `from`.
fn skip_token(bytes: &[u8], from: usize) -> (r: usize)
    requires
        from <= bytes@.len(),
    ensures
        from <= r <= bytes@.len(),
        r == spec_skip_token(bytes@, from as int),
{
    let mut i = from;
    while i < bytes.len() && !is_ws(bytes[i])
        invariant
            from <= i <= bytes@.len(),
            spec_skip_token(bytes@, from as int) == spec_skip_token(bytes@, i as int),
        decreases bytes@.len() - i,
    {
        i = i + 1;
    }
    i
}

/// The piece a FEN letter denotes, as a byte.
pub open spec fn spec_piece_of(b: u8) -> Option<Piece> {
    if b == 80 {  // P
        Some(Piece::WP)
    } else if b == 78 {  // N
        Some(Piece::WN)
    } else if b == 66 {  // B
        Some(Piece::WB)
    } else if b == 82 {  // R
        Some(Piece::WR)
    } else if b == 81 {  // Q
        Some(Piece::WQ)
    } else if b == 75 {  // K
        Some(Piece::WK)
    } else if b == 112 {  // p
        Some(Piece::BP)
    } else if b == 110 {  // n
        Some(Piece::BN)
    } else if b == 98 {  // b
        Some(Piece::BB)
    } else if b == 114 {  // r
        Some(Piece::BR)
    } else if b == 113 {  // q
        Some(Piece::BQ)
    } else if b == 107 {  // k
        Some(Piece::BK)
    } else {
        None
    }
}

/// The piece a FEN letter denotes, as a byte.
#[verifier::when_used_as_spec(spec_piece_of)]
fn piece_from_byte(b: u8) -> (r: Option<Piece>)
    ensures
        r == spec_piece_of(b),
        r matches Some(p) ==> p.spec_to_char() as u8 == b,
{
    match b {
        80 => Some(Piece::WP),  // P
        78 => Some(Piece::WN),  // N
        66 => Some(Piece::WB),  // B
        82 => Some(Piece::WR),  // R
        81 => Some(Piece::WQ),  // Q
        75 => Some(Piece::WK),  // K
        112 => Some(Piece::BP),  // p
        110 => Some(Piece::BN),  // n
        98 => Some(Piece::BB),  // b
        114 => Some(Piece::BR),  // r
        113 => Some(Piece::BQ),  // q
        107 => Some(Piece::BK),  // k
        _ => None,
    }
}

/// A board mid-parse: pieces placed, nothing else set, the hash holding
/// exactly the placed pieces' keys.
pub open spec fn parse_state(b: Board) -> bool {
    &&& wf_shape(b@)
    &&& wf_placement(b@)
    &&& b@.zobrist == pieces_hash_below(b@.piece_map, 64)
    &&& b@.enpassant is None
    &&& b@.castling == CastleRights(0)
    &&& b@.fifty == 0
    &&& b@.ply == 0
    &&& b@.side == Color::White
}

/// The decimal number a byte range continues from `acc`: each byte a
/// digit, the value never above `cap`.
pub open spec fn spec_number(s: Seq<u8>, i: int, end: int, acc: int, cap: int) -> Option<u32>
    decreases end - i,
{
    if i >= end {
        Some(acc as u32)
    } else {
        let b = s[i];
        if b < 48 || b > 57 {
            None
        } else {
            let next = acc * 10 + (b - 48);
            if next > cap {
                None
            } else {
                spec_number(s, i + 1, end, next, cap)
            }
        }
    }
}

/// The decimal number a non-empty byte range denotes, at most `cap`.
pub open spec fn spec_number_field(s: Seq<u8>, start: int, end: int, cap: int) -> Option<u32> {
    if start >= end {
        None
    } else {
        spec_number(s, start, end, 0, cap)
    }
}

/// Parses a non-negative decimal number of at most `cap` from a byte
/// range.
fn parse_number(bytes: &[u8], start: usize, end: usize, cap: u32) -> (r: Option<u32>)
    requires
        start <= end <= bytes@.len(),
        1 <= cap <= 0xFFFF,
    ensures
        r matches Some(v) ==> v <= cap,
        r == spec_number_field(bytes@, start as int, end as int, cap as int),
{
    if start == end {
        return None;
    }
    let mut value: u32 = 0;
    let mut i = start;
    while i < end
        invariant
            start <= i <= end,
            end <= bytes@.len(),
            1 <= cap <= 0xFFFF,
            value <= cap,
            spec_number(bytes@, start as int, end as int, 0, cap as int) == spec_number(
                bytes@,
                i as int,
                end as int,
                value as int,
                cap as int,
            ),
        decreases end - i,
    {
        let b = bytes[i];
        if b < 48 || b > 57 {
            return None;
        }
        let digit = (b - 48) as u32;
        let next = value * 10 + digit;
        if next > cap {
            return None;
        }
        value = next;
        i = i + 1;
    }
    Some(value)
}

/// The piece map a placement byte range denotes, continuing from the
/// given rank, file, per-rank file count and partial map: eight ranks of
/// eight files, digits for runs of empty squares, each square filled at
/// most once; `None` on any other text.
pub open spec fn spec_place(
    s: Seq<u8>,
    i: int,
    end: int,
    rank: int,
    file: int,
    count: int,
    pm: Seq<Option<Piece>>,
) -> Option<Seq<Option<Piece>>>
    decreases end - i,
{
    if i >= end {
        if count == 8 && rank == 0 {
            Some(pm)
        } else {
            None
        }
    } else {
        let b = s[i];
        if b == 47 {  // '/'
            if count != 8 || rank <= 0 {
                None
            } else {
                spec_place(s, i + 1, end, rank - 1, 0, 0, pm)
            }
        } else if 49 <= b <= 56 {  // '1'..'8'
            let run = b - 48;
            if count + run > 8 {
                None
            } else {
                spec_place(s, i + 1, end, rank, file + run, count + run, pm)
            }
        } else {
            match spec_piece_of(b) {
                Some(p) => {
                    if count >= 8 {
                        None
                    } else {
                        let sq = rank * 8 + file;
                        if pm[sq] is Some {
                            None
                        } else {
                            spec_place(s, i + 1, end, rank, file + 1, count + 1, pm.update(sq, Some(p)))
                        }
                    }
                },
                None => None,
            }
        }
    }
}

/// Fills the board from the placement field: eight ranks of eight files,
/// digits for runs of empty squares, each square set at most once.
#[verifier::spinoff_prover]
fn parse_placement(bytes: &[u8], f_start: usize, f_end: usize, board: &mut Board) -> (r: Result<
    (),
    &'static str,
>)
    requires
        f_start <= f_end <= bytes@.len(),
        parse_state(*old(board)),
    ensures
        ({
            let placed = spec_place(bytes@, f_start as int, f_end as int, 7, 0, 0, old(board)@.piece_map);
            &&& r is Ok <==> placed is Some
            &&& r is Ok ==> placed == Some(final(board)@.piece_map) && parse_state(*final(board))
        }),
{
    let ghost whole = spec_place(bytes@, f_start as int, f_end as int, 7, 0, 0, old(board)@.piece_map);
    let mut rank: u8 = 7;
    let mut file: u8 = 0;
    let mut count: u8 = 0;
    let mut ranks_done: u8 = 0;
    let mut i = f_start;
    while i < f_end
        invariant
            f_start <= i <= f_end,
            f_end <= bytes@.len(),
            parse_state(*board),
            rank < 8,
            file <= 8,
            count <= 8,
            file == count,
            ranks_done < 8,
            rank == 7 - ranks_done,
            whole == spec_place(bytes@, f_start as int, f_end as int, 7, 0, 0, old(board)@.piece_map),
            whole == spec_place(
                bytes@,
                i as int,
                f_end as int,
                rank as int,
                file as int,
                count as int,
                board@.piece_map,
            ),
        decreases f_end - i,
    {
        let ghost pm_here = board@.piece_map;
        let b = bytes[i];
        if b == 47 {  // '/'
            if count != 8 {
                proof {
                    assert(whole is None);
                }
                return Err("Invalid FEN!");
            }
            if ranks_done >= 7 {
                proof {
                    assert(rank == 0);
                    assert(whole is None);
                }
                return Err("Invalid FEN!");
            }
            ranks_done = ranks_done + 1;
            rank = rank - 1;
            file = 0;
            count = 0;
        } else if b >= 49 && b <= 56 {  // '1'..'8'
            let run = b - 48;
            if count + run > 8 {
                proof {
                    assert(whole is None);
                }
                return Err("Invalid FEN!");
            }
            file = file + run;
            count = count + run;
        } else {
            match piece_from_byte(b) {
                Some(piece) => {
                    if count >= 8 {
                        proof {
                            assert(whole is None);
                        }
                        return Err("Invalid FEN!");
                    }
                    let square = Square(rank * 8 + file);
                    if board.piece_map[square.to_index()].is_some() {
                        proof {
                            assert(pm_here[rank as int * 8 + file as int] is Some);
                            assert(whole is None);
                        }
                        return Err("Invalid FEN!");
                    }
                    let ghost before = board@;
                    board.set_piece(piece, square);
                    proof {
                        crate::model::lemma_set_piece(before, piece, square);
                        assert(board@.piece_map == pm_here.update(
                            rank as int * 8 + file as int,
                            Some(piece),
                        ));
                    }
                    file = file + 1;
                    count = count + 1;
                },
                None => {
                    proof {
                        assert(spec_piece_of(b) is None);
                        assert(whole is None);
                    }
                    return Err("Invalid FEN!");
                },
            }
        }
        i = i + 1;
    }
    if count != 8 || ranks_done != 7 {
        proof {
            assert(whole is None);
        }
        return Err("Invalid FEN!");
    }
    proof {
        assert(whole == Some(board@.piece_map));
    }
    Ok(())
}

/// The castling bit a letter of `KQkq` denotes, or 16 for any other byte.
pub open spec fn spec_castle_bit(b: u8) -> u8 {
    if b == 75 {  // K
        1
    } else if b == 81 {  // Q
        2
    } else if b == 107 {  // k
        4
    } else if b == 113 {  // q
        8
    } else {
        16
    }
}

/// The rights mask a byte range of castle letters denotes, continued from
/// `acc`, or `None` on any other byte.
pub open spec fn spec_castle(s: Seq<u8>, i: int, end: int, acc: u8) -> Option<u8>
    decreases end - i,
{
    if i >= end {
        Some(acc)
    } else {
        let nb = spec_castle_bit(s[i]);
        if nb == 16 {
            None
        } else {
            spec_castle(s, i + 1, end, acc | nb)
        }
    }
}

/// The rights mask the castling field denotes: `-`, or letters of `KQkq`.
pub open spec fn spec_castle_field(s: Seq<u8>, start: int, end: int) -> Option<u8> {
    if start >= end {
        None
    } else if end - start == 1 && s[start] == 45 {  // '-'
        Some(0)
    } else {
        spec_castle(s, start, end, 0)
    }
}

/// Reads the castling-rights field: `-`, or letters of `KQkq`.
fn parse_castle_field(bytes: &[u8], f_start: usize, f_end: usize) -> (r: Option<u8>)
    requires
        f_start <= f_end <= bytes@.len(),
    ensures
        r matches Some(v) ==> v < 16,
        r == spec_castle_field(bytes@, f_start as int, f_end as int),
{
    if f_start == f_end {
        return None;
    }
    if f_end - f_start == 1 && bytes[f_start] == 45 {  // '-'
        return Some(0);
    }
    let mut rights: u8 = 0;
    let mut j = f_start;
    while j < f_end
        invariant
            f_start < f_end,
            f_start <= j <= f_end,
            f_end <= bytes@.len(),
            rights < 16,
            !(f_end - f_start == 1 && bytes@[f_start as int] == 45),
            spec_castle(bytes@, f_start as int, f_end as int, 0) == spec_castle(
                bytes@,
                j as int,
                f_end as int,
                rights,
            ),
        decreases f_end - j,
    {
        let nb: u8 = match bytes[j] {
            75 => 1,  // 'K'
            81 => 2,  // 'Q'
            107 => 4,  // 'k'
            113 => 8,  // 'q'
            _ => 16,
        };
        assert(nb == spec_castle_bit(bytes@[j as int]));
        if nb == 16 {
            assert(spec_castle(bytes@, j as int, f_end as int, rights) is None);
            return None;
        }
        proof {
            let r0 = rights;
            assert(r0 < 16 && (nb == 1 || nb == 2 || nb == 4 || nb == 8) ==> (r0 | nb) < 16)
                by (bit_vector);
        }
        rights = rights | nb;
        j = j + 1;
    }
    assert(spec_castle(bytes@, f_end as int, f_end as int, rights) == Some(rights));
    Some(rights)
}

/// The placement backs every right in the mask: king and rook on their
/// home squares.
pub open spec fn spec_backing_ok(pm: Seq<Option<Piece>>, rights: u8) -> bool {
    &&& rights & 1 != 0 ==> pm[4] == Some(Piece::WK) && pm[7] == Some(Piece::WR)
    &&& rights & 2 != 0 ==> pm[4] == Some(Piece::WK) && pm[0] == Some(Piece::WR)
    &&& rights & 4 != 0 ==> pm[60] == Some(Piece::BK) && pm[63] == Some(Piece::BR)
    &&& rights & 8 != 0 ==> pm[60] == Some(Piece::BK) && pm[56] == Some(Piece::BR)
}

/// Whether the placement backs every right in the mask: king and rook on
/// their home squares.
fn castle_backing_ok(board: &Board, rights: u8) -> (r: bool)
    ensures
        r == spec_backing_ok(board@.piece_map, rights),
{
    if rights & 1 != 0 {
        if !(matches!(board.piece_map[4], Some(Piece::WK)) && matches!(
            board.piece_map[7],
            Some(Piece::WR),
        )) {
            return false;
        }
    }
    if rights & 2 != 0 {
        if !(matches!(board.piece_map[4], Some(Piece::WK)) && matches!(
            board.piece_map[0],
            Some(Piece::WR),
        )) {
            return false;
        }
    }
    if rights & 4 != 0 {
        if !(matches!(board.piece_map[60], Some(Piece::BK)) && matches!(
            board.piece_map[63],
            Some(Piece::BR),
        )) {
            return false;
        }
    }
    if rights & 8 != 0 {
        if !(matches!(board.piece_map[60], Some(Piece::BK)) && matches!(
            board.piece_map[56],
            Some(Piece::BR),
        )) {
            return false;
        }
    }
    true
}

/// The en-passant square the field denotes: nothing for `-`, a square for
/// a file letter and a rank digit of 3 or 6, `None` on any other text.
pub open spec fn spec_ep_field(s: Seq<u8>, start: int, end: int) -> Option<Option<Square>> {
    if end - start == 1 && s[start] == 45 {  // '-'
        Some(None)
    } else if end - start == 2 {
        let fb = s[start];
        let rb = s[start + 1];
        if fb < 97 || fb > 104 {  // 'a'..'h'
            None
        } else if rb != 51 && rb != 54 {  // '3' or '6'
            None
        } else {
            Some(Some(Square((((rb - 49) * 8) + (fb - 97)) as u8)))
        }
    } else {
        None
    }
}

/// Reads the en-passant field: `-`, or a file letter and a rank digit,
/// the rank being 3 or 6.
fn parse_ep_field(bytes: &[u8], f_start: usize, f_end: usize) -> (r: Result<
    Option<Square>,
    &'static str,
>)
    requires
        f_start <= f_end <= bytes@.len(),
    ensures
        r matches Ok(Some(sq)) ==> sq.wf() && (sq.rank_idx() == 2 || sq.rank_idx() == 5),
        (match r {
            Ok(ep) => spec_ep_field(bytes@, f_start as int, f_end as int) == Some(ep),
            Err(_) => spec_ep_field(bytes@, f_start as int, f_end as int) is None,
        }),
{
    if f_end - f_start == 1 && bytes[f_start] == 45 {  // '-'
        Ok(None)
    } else if f_end - f_start == 2 {
        let fb = bytes[f_start];
        let rb = bytes[f_start + 1];
        if fb < 97 || fb > 104 {  // 'a'..'h'
            return Err("Invalid FEN!");
        }
        if rb != 51 && rb != 54 {  // '3' or '6'
            return Err("Invalid FEN!");
        }
        let ep = Square((rb - 49) * 8 + (fb - 97));
        Ok(Some(ep))
    } else {
        Err("Invalid FEN!")
    }
}

/// The hash of the parsed components, reordered into the recomputed shape,
/// whichever of the side key and the en-passant key are present.
proof fn lemma_fen_hash(p: u64, c: u64, e: u64, s: u64)
    by (bit_vector)
    ensures
        ((p ^ s) ^ c) ^ e == ((p ^ c) ^ e) ^ s,
        (p ^ s) ^ c == ((p ^ c) ^ 0u64) ^ s,
        (p ^ c) ^ e == ((p ^ c) ^ e) ^ 0u64,
        p ^ c == ((p ^ c) ^ 0u64) ^ 0u64,
{
}

/// Builds the finished board from the placed pieces and the parsed
/// fields, hashing each component in as the FEN discipline asks, and
/// computes the checkers. The result is well-formed.
#[verifier::spinoff_prover]
fn assemble(
    placed: Board,
    side: Color,
    rights: u8,
    ep: Option<Square>,
    fifty: u16,
    ply: u16,
) -> (r: Board)
    requires
        parse_state(placed),
        rights < 16,
        fifty < 0x8000,
        ep matches Some(sq) ==> sq.wf() && (sq.rank_idx() == 2 || sq.rank_idx() == 5),
        spec_backing_ok(placed@.piece_map, rights),
    ensures
        wf(r@),
        r@.piece_map == placed@.piece_map,
        r@.side == side,
        r@.castling == CastleRights(rights),
        r@.enpassant == ep,
        r@.fifty == fifty,
        r@.ply == ply,
        r@.checkers.0 == crate::attacks::spec_checkers(r@),
{
    let ghost p = placed@.zobrist;
    let mut b = placed;
    b.side = side;
    if matches!(side, Color::White) {
        b.zobrist.hash_side();
    }
    let castle = CastleRights(rights);
    b.castling = castle;
    b.zobrist.hash_castle(castle);
    b.enpassant_square = ep;
    if let Some(sq) = ep {
        b.zobrist.hash_enpassant(sq);
    }
    b.fifty_move = fifty as i16;
    b.ply = ply;
    proof {
        let ck = crate::zobrist::key_castle(rights as int);
        let ek = crate::model::ep_hash(b@.enpassant);
        let sk = crate::model::side_hash(b@.side);
        lemma_fen_hash(p, ck, ek, sk);
        assert(b@.pieces == placed@.pieces && b@.sides == placed@.sides && b@.piece_map
            == placed@.piece_map);
        assert(wf_placement(b@));
        assert(crate::model::pieces_hash_below(b@.piece_map, 64) == p);
        assert(castle_ok(b@));
        if matches!(side, Color::White) {
            assert(sk == KEY_SIDE);
            match ep {
                Some(sq) => {
                    assert(b@.zobrist == ((p ^ sk) ^ ck) ^ ek);
                },
                None => {
                    assert(b@.zobrist == (p ^ sk) ^ ck && ek == 0);
                },
            }
        } else {
            assert(sk == 0);
            match ep {
                Some(sq) => {
                    assert(b@.zobrist == (p ^ ck) ^ ek);
                },
                None => {
                    assert(b@.zobrist == p ^ ck && ek == 0);
                },
            }
        }
        assert(b@.zobrist == crate::model::board_hash(b@));
        assert(wf_counters(b@) && wf_ep(b@) && b@.castling.wf() && wf_shape(b@));
    }
    let ghost before_checkers = b@;
    b.checkers = b.checkers();
    proof {
        crate::attacks::lemma_checkers_congruence(before_checkers, b@);
    }
    b
}

/// The parsed fields of a FEN text.
pub struct FenFields {
    /// The piece standing on each square, if any.
    pub piece_map: Seq<Option<Piece>>,
    /// The side to move.
    pub side: Color,
    /// The castling rights.
    pub castling: CastleRights,
    /// The en-passant square, if any.
    pub enpassant: Option<Square>,
    /// The halfmove clock.
    pub fifty: int,
    /// The fullmove number.
    pub ply: int,
}

/// What a FEN text denotes: six whitespace-separated fields — placement,
/// side, castling rights backed by the placement, en-passant square on its
/// proper rank, and the two counters in range — or nothing when the text
/// breaks that grammar. Text after the sixth field is ignored, as the
/// parser it specifies ignores it.
pub open spec fn spec_parse_fen(s: Seq<u8>) -> Option<FenFields> {
    let p0 = spec_skip_ws(s, 0);
    let e0 = spec_skip_token(s, p0);
    if p0 == e0 {
        None
    } else {
        match spec_place(s, p0, e0, 7, 0, 0, Seq::new(64, |i: int| None)) {
            None => None,
            Some(pm) => {
                let p1 = spec_skip_ws(s, e0);
                let e1 = spec_skip_token(s, p1);
                if e1 - p1 != 1 {
                    None
                } else if s[p1] != 119 && s[p1] != 98 {  // 'w' or 'b'
                    None
                } else {
                    let side = if s[p1] == 119 {
                        Color::White
                    } else {
                        Color::Black
                    };
                    let p2 = spec_skip_ws(s, e1);
                    let e2 = spec_skip_token(s, p2);
                    match spec_castle_field(s, p2, e2) {
                        None => None,
                        Some(rights) => {
                            if !spec_backing_ok(pm, rights) {
                                None
                            } else {
                                let p3 = spec_skip_ws(s, e2);
                                let e3 = spec_skip_token(s, p3);
                                match spec_ep_field(s, p3, e3) {
                                    None => None,
                                    Some(ep) => {
                                        let p4 = spec_skip_ws(s, e3);
                                        let e4 = spec_skip_token(s, p4);
                                        match spec_number_field(s, p4, e4, 0x7FFF) {
                                            None => None,
                                            Some(fifty) => {
                                                let p5 = spec_skip_ws(s, e4);
                                                let e5 = spec_skip_token(s, p5);
                                                match spec_number_field(s, p5, e5, 0xFFFF) {
                                                    None => None,
                                                    Some(ply) => Some(
                                                        FenFields {
                                                            piece_map: pm,
                                                            side,
                                                            castling: CastleRights(rights),
                                                            enpassant: ep,
                                                            fifty: fifty as int,
                                                            ply: ply as int,
                                                        },
                                                    ),
                                                }
                                            },
                                        }
                                    },
                                }
                            }
                        },
                    }
                }
            },
        }
    }
}

impl Board {
    /// Reads a position from its FEN text: succeeds exactly on the texts
    /// [`spec_parse_fen`] accepts, and the board then carries exactly the
    /// parsed fields, well-formed, with its checkers computed. The text is
    /// judged byte for byte (a FEN is ASCII); an error names the first
    /// field that broke the grammar or described an inconsistent position.
    #[verifier::rlimit(100)]
    #[verifier::spinoff_prover]
    pub fn from_fen(s: &str) -> (r: Result<Board, &'static str>)
        ensures
            r is Ok <==> spec_parse_fen(s.spec_bytes()) is Some,
            r matches Ok(b) ==> ({
                let f = spec_parse_fen(s.spec_bytes())->Some_0;
                &&& wf(b@)
                &&& b@.piece_map == f.piece_map
                &&& b@.side == f.side
                &&& b@.castling == f.castling
                &&& b@.enpassant == f.enpassant
                &&& b@.fifty == f.fifty
                &&& b@.ply == f.ply
                &&& b@.checkers.0 == crate::attacks::spec_checkers(b@)
            }),
    {
        let bytes = s.as_bytes();
        let mut board = Board::new();
        proof {
            crate::bits::lemma_nth_zero();
            lemma_hash_of_empty(board@.piece_map, 64);
            assert forall|i: int, p: Piece| 0 <= i < 64 implies (#[trigger] board@.pieces[p.idx()].has(
                i,
            ) <==> board@.piece_map[i] == Some(p)) by {
                assert(board@.pieces[p.idx()] == crate::bitboard::BitBoard(0));
                assert(board@.piece_map[i] is None);
            }
            assert(parse_state(board));
            assert(board@.piece_map =~= Seq::new(64, |i: int| None));
        }

        // Field 1: the placement, rank 8 down to rank 1.
        let f_start = skip_ws(bytes, 0);
        let f_end = skip_token(bytes, f_start);
        if f_start == f_end {
            proof {
                assert(spec_parse_fen(bytes@) is None);
            }
            return Err("Invalid FEN!");
        }
        let ghost placed_spec = spec_place(
            bytes@,
            f_start as int,
            f_end as int,
            7,
            0,
            0,
            Seq::new(64, |i: int| None),
        );
        match parse_placement(bytes, f_start, f_end, &mut board) {
            Ok(()) => {},
            Err(e) => {
                proof {
                    assert(placed_spec is None);
                    assert(spec_parse_fen(bytes@) is None);
                }
                return Err(e);
            },
        }
        assert(placed_spec == Some(board@.piece_map));

        // Field 2: the active color.
        let f_start = skip_ws(bytes, f_end);
        let f_end = skip_token(bytes, f_start);
        if f_end - f_start != 1 {
            proof {
                assert(spec_parse_fen(bytes@) is None);
            }
            return Err("Invalid FEN!");
        }
        let side = match bytes[f_start] {
            119 => Color::White,  // 'w'
            98 => Color::Black,  // 'b'
            _ => {
                proof {
                    assert(spec_parse_fen(bytes@) is None);
                }
                return Err("Invalid FEN!");
            },
        };

        // Field 3: the castling rights, which the placement must back.
        let f_start = skip_ws(bytes, f_end);
        let f_end = skip_token(bytes, f_start);
        let rights = match parse_castle_field(bytes, f_start, f_end) {
            Some(r) => r,
            None => {
                proof {
                    assert(spec_parse_fen(bytes@) is None);
                }
                return Err("Invalid FEN!");
            },
        };
        if !castle_backing_ok(&board, rights) {
            proof {
                assert(spec_parse_fen(bytes@) is None);
            }
            return Err("Invalid FEN!");
        }

        // Field 4: the en-passant square, on rank 3 or rank 6 when set.
        let f_start = skip_ws(bytes, f_end);
        let f_end = skip_token(bytes, f_start);
        let ep = match parse_ep_field(bytes, f_start, f_end) {
            Ok(e) => e,
            Err(e) => {
                proof {
                    assert(spec_parse_fen(bytes@) is None);
                }
                return Err(e);
            },
        };

        // Field 5: the halfmove clock.
        let f_start = skip_ws(bytes, f_end);
        let f_end = skip_token(bytes, f_start);
        let fifty = match parse_number(bytes, f_start, f_end, 0x7FFF) {
            Some(v) => v as u16,
            None => {
                proof {
                    assert(spec_parse_fen(bytes@) is None);
                }
                return Err("Invalid Halfmove Clock!");
            },
        };

        // Field 6: the fullmove number.
        let f_start = skip_ws(bytes, f_end);
        let f_end = skip_token(bytes, f_start);
        let ply = match parse_number(bytes, f_start, f_end, 0xFFFF) {
            Some(v) => v as u16,
            None => {
                proof {
                    assert(spec_parse_fen(bytes@) is None);
                }
                return Err("Invalid Fullmove Number!");
            },
        };

        let done = assemble(board, side, rights, ep, fifty, ply);
        proof {
            assert(spec_parse_fen(bytes@) matches Some(f) && f.piece_map == done@.piece_map
                && f.side == side && f.castling == CastleRights(rights) && f.enpassant == ep
                && f.fifty == fifty && f.ply == ply);
        }
        Ok(done)
    }

    /// Writes the position as FEN text: exactly [`spec_to_fen`] of the
    /// position — placement from the eighth rank down with empty runs as
    /// digits, the active color, the castling rights, the en-passant
    /// square and the two counters, separated by single spaces.
    pub fn to_fen(&self) -> (r: String)
        ensures
            r@ == spec_to_fen(self@),
    {
        let mut out = String::new();
        proof {
            assert(out@ =~= Seq::<char>::empty());
        }
        push_placement(&mut out, self);
        let ghost after_placement = out@;
        out.append(" ");
        out.append(
            if matches!(self.side, Color::White) {
                "w"
            } else {
                "b"
            },
        );
        out.append(" ");
        proof {
            reveal_strlit(" ");
            reveal_strlit("w");
            reveal_strlit("b");
            assert(" "@ =~= seq![' ']);
            assert("w"@ =~= seq!['w']);
            assert("b"@ =~= seq!['b']);
            assert(out@ =~= ((after_placement + seq![' ']) + (if self@.side == Color::White {
                seq!['w']
            } else {
                seq!['b']
            })) + seq![' ']);
        }
        let ghost before_castle = out@;
        if self.castling.0 == 0 {
            out.append("-");
            proof {
                reveal_strlit("-");
                assert(out@ =~= before_castle + spec_castle_chars(self@.castling));
            }
        } else {
            if self.castling.0 & 1 != 0 {
                out.append("K");
            }
            if self.castling.0 & 2 != 0 {
                out.append("Q");
            }
            if self.castling.0 & 4 != 0 {
                out.append("k");
            }
            if self.castling.0 & 8 != 0 {
                out.append("q");
            }
            proof {
                reveal_strlit("K");
                reveal_strlit("Q");
                reveal_strlit("k");
                reveal_strlit("q");
                assert("K"@ =~= seq!['K']);
                assert("Q"@ =~= seq!['Q']);
                assert("k"@ =~= seq!['k']);
                assert("q"@ =~= seq!['q']);
                assert(out@ =~= before_castle + spec_castle_chars(self@.castling));
            }
        }
        out.append(" ");
        let ghost before_ep = out@;
        match self.enpassant_square {
            Some(sq) => {
                let v = sq.0 % 64;
                out.append(file_str(v % 8));
                out.append(digit_str(v / 8 + 1));
            },
            None => {
                out.append("-");
                proof {
                    reveal_strlit("-");
                }
            },
        }
        proof {
            assert(out@ =~= before_ep + spec_ep_chars(self@.enpassant));
        }
        out.append(" ");
        let fifty: u16 = if self.fifty_move < 0 {
            0
        } else {
            self.fifty_move as u16
        };
        push_decimal(&mut out, fifty);
        out.append(" ");
        push_decimal(&mut out, self.ply);
        proof {
            reveal_strlit(" ");
            assert(out@ =~= spec_to_fen(self@));
        }
        out
    }
}

/// The hash of a map with no pieces on it is zero.
proof fn lemma_hash_of_empty(pm: Seq<Option<Piece>>, n: int)
    requires
        forall|i: int| 0 <= i < n ==> pm[i] is None,
    ensures
        pieces_hash_below(pm, n) == 0,
    decreases n,
{
    crate::bits::lemma_xor_algebra();
    if n > 0 {
        lemma_hash_of_empty(pm, n - 1);
    }
}

/// One rank of the placement appended to the text: pieces as letters,
/// runs of empty squares as digits.
fn push_rank(out: &mut String, board: &Board, rank: u8)
    requires
        rank < 8,
    ensures
        final(out)@ == old(out)@ + spec_rank_chars(board@.piece_map, rank as int, 0, 0),
{
    let ghost pm = board@.piece_map;
    let mut empties: u8 = 0;
    let mut f: u8 = 0;
    while f < 8
        invariant
            rank < 8,
            f <= 8,
            empties <= f,
            board@.piece_map == pm,
            old(out)@ + spec_rank_chars(pm, rank as int, 0, 0) == out@ + spec_rank_chars(
                pm,
                rank as int,
                f as int,
                empties as int,
            ),
        decreases 8 - f,
    {
        match board.piece_map[(rank * 8 + f) as usize] {
            Some(piece) => {
                let ghost out0 = out@;
                let ghost e0 = empties as int;
                if empties > 0 {
                    out.append(digit_str(empties));
                }
                out.append(piece_str(piece));
                proof {
                    assert(pm[rank as int * 8 + f as int] == Some(piece));
                    assert(out@ =~= (out0 + (if e0 > 0 {
                        seq![spec_digit_char(e0)]
                    } else {
                        Seq::<char>::empty()
                    })) + seq![piece.spec_to_char()]);
                    assert(out0 + spec_rank_chars(pm, rank as int, f as int, e0) =~= out@
                        + spec_rank_chars(pm, rank as int, f as int + 1, 0));
                }
                empties = 0;
            },
            None => {
                proof {
                    assert(pm[rank as int * 8 + f as int] is None);
                }
                empties = empties + 1;
            },
        }
        f = f + 1;
    }
    let ghost out1 = out@;
    let ghost e1 = empties as int;
    if empties > 0 {
        out.append(digit_str(empties));
    }
    proof {
        assert(out@ =~= out1 + spec_rank_chars(pm, rank as int, 8, e1));
        assert(out@ =~= old(out)@ + spec_rank_chars(pm, rank as int, 0, 0));
    }
}

/// The whole placement appended to the text, ranks 8 down to 1 separated
/// by `/`.
fn push_placement(out: &mut String, board: &Board)
    ensures
        final(out)@ == old(out)@ + spec_placement_chars(board@.piece_map, 7),
{
    let ghost pm = board@.piece_map;
    push_rank(out, board, 7);
    proof {
        reveal_strlit("/");
    }
    let mut r: u8 = 7;
    while r > 0
        invariant
            r <= 7,
            board@.piece_map == pm,
            old(out)@ + spec_placement_chars(pm, 7) == out@ + (if r > 0 {
                seq!['/'] + spec_placement_chars(pm, r as int - 1)
            } else {
                Seq::<char>::empty()
            }),
        decreases r,
    {
        let ghost out0 = out@;
        out.append("/");
        push_rank(out, board, r - 1);
        proof {
            reveal_strlit("/");
            assert("/"@ =~= seq!['/']);
            assert(out@ =~= (out0 + seq!['/']) + spec_rank_chars(pm, r as int - 1, 0, 0));
            assert(out0 + (seq!['/'] + spec_placement_chars(pm, r as int - 1)) =~= out@ + (if r
                as int - 1 > 0 {
                seq!['/'] + spec_placement_chars(pm, r as int - 2)
            } else {
                Seq::<char>::empty()
            }));
        }
        r = r - 1;
    }
    proof {
        assert(out@ =~= old(out)@ + spec_placement_chars(pm, 7));
    }
}

/// One decimal digit as a character.
pub open spec fn spec_digit_char(d: int) -> char {
    if d == 0 {
        '0'
    } else if d == 1 {
        '1'
    } else if d == 2 {
        '2'
    } else if d == 3 {
        '3'
    } else if d == 4 {
        '4'
    } else if d == 5 {
        '5'
    } else if d == 6 {
        '6'
    } else if d == 7 {
        '7'
    } else if d == 8 {
        '8'
    } else {
        '9'
    }
}

/// A file index as its letter.
pub open spec fn spec_file_char(f: int) -> char {
    if f == 0 {
        'a'
    } else if f == 1 {
        'b'
    } else if f == 2 {
        'c'
    } else if f == 3 {
        'd'
    } else if f == 4 {
        'e'
    } else if f == 5 {
        'f'
    } else if f == 6 {
        'g'
    } else {
        'h'
    }
}

/// One rank of the placement from file `file` on, with `empties` empty
/// squares pending: runs of empty squares become digits, pieces their
/// letters.
pub open spec fn spec_rank_chars(
    pm: Seq<Option<Piece>>,
    rank: int,
    file: int,
    empties: int,
) -> Seq<char>
    decreases 8 - file,
{
    if file >= 8 {
        if empties > 0 {
            seq![spec_digit_char(empties)]
        } else {
            Seq::empty()
        }
    } else {
        match pm[rank * 8 + file] {
            Some(p) => (if empties > 0 {
                seq![spec_digit_char(empties)]
            } else {
                Seq::empty()
            }) + seq![p.spec_to_char()] + spec_rank_chars(pm, rank, file + 1, 0),
            None => spec_rank_chars(pm, rank, file + 1, empties + 1),
        }
    }
}

/// The placement from `rank` down to the first rank, ranks separated by
/// `/`.
pub open spec fn spec_placement_chars(pm: Seq<Option<Piece>>, rank: int) -> Seq<char>
    decreases rank,
{
    if rank <= 0 {
        spec_rank_chars(pm, 0, 0, 0)
    } else {
        spec_rank_chars(pm, rank, 0, 0) + seq!['/'] + spec_placement_chars(pm, rank - 1)
    }
}

/// The castling field: the held rights' letters in `KQkq` order, or `-`
/// for none.
pub open spec fn spec_castle_chars(c: CastleRights) -> Seq<char> {
    if c.0 == 0 {
        seq!['-']
    } else {
        (if c.0 & 1 != 0 {
            seq!['K']
        } else {
            Seq::empty()
        }) + (if c.0 & 2 != 0 {
            seq!['Q']
        } else {
            Seq::empty()
        }) + (if c.0 & 4 != 0 {
            seq!['k']
        } else {
            Seq::empty()
        }) + (if c.0 & 8 != 0 {
            seq!['q']
        } else {
            Seq::empty()
        })
    }
}

/// The en-passant field: the square's name, or `-` for none.
pub open spec fn spec_ep_chars(ep: Option<Square>) -> Seq<char> {
    match ep {
        None => seq!['-'],
        Some(sq) => seq![
            spec_file_char((sq.0 % 64) as int % 8),
            spec_digit_char((sq.0 % 64) as int / 8 + 1),
        ],
    }
}

/// A non-negative number in decimal, most significant digit first.
pub open spec fn spec_dec_chars(n: int) -> Seq<char>
    decreases n,
{
    if n < 10 {
        seq![spec_digit_char(n)]
    } else {
        spec_dec_chars(n / 10) + seq![spec_digit_char(n % 10)]
    }
}

/// The FEN text of a position: the six fields separated by single spaces.
/// A negative fifty-move count renders as zero.
pub open spec fn spec_to_fen(m: BoardModel) -> Seq<char> {
    spec_placement_chars(m.piece_map, 7) + seq![' '] + (if m.side == Color::White {
        seq!['w']
    } else {
        seq!['b']
    }) + seq![' '] + spec_castle_chars(m.castling) + seq![' '] + spec_ep_chars(m.enpassant)
        + seq![' '] + spec_dec_chars(
        if m.fifty < 0 {
            0
        } else {
            m.fifty
        },
    ) + seq![' '] + spec_dec_chars(m.ply)
}

/// One decimal digit as text.
fn digit_str(d: u8) -> (r: &'static str)
    requires
        d <= 9,
    ensures
        r@ == seq![spec_digit_char(d as int)],
{
    proof {
        reveal_strlit("0");
        reveal_strlit("1");
        reveal_strlit("2");
        reveal_strlit("3");
        reveal_strlit("4");
        reveal_strlit("5");
        reveal_strlit("6");
        reveal_strlit("7");
        reveal_strlit("8");
        reveal_strlit("9");
        assert("0"@ =~= seq!['0']);
        assert("1"@ =~= seq!['1']);
        assert("2"@ =~= seq!['2']);
        assert("3"@ =~= seq!['3']);
        assert("4"@ =~= seq!['4']);
        assert("5"@ =~= seq!['5']);
        assert("6"@ =~= seq!['6']);
        assert("7"@ =~= seq!['7']);
        assert("8"@ =~= seq!['8']);
        assert("9"@ =~= seq!['9']);
    }
    match d {
        0 => "0",
        1 => "1",
        2 => "2",
        3 => "3",
        4 => "4",
        5 => "5",
        6 => "6",
        7 => "7",
        8 => "8",
        _ => "9",
    }
}

/// A file, 0 to 7, as its letter.
fn file_str(f: u8) -> (r: &'static str)
    requires
        f < 8,
    ensures
        r@ == seq![spec_file_char(f as int)],
{
    proof {
        reveal_strlit("a");
        reveal_strlit("b");
        reveal_strlit("c");
        reveal_strlit("d");
        reveal_strlit("e");
        reveal_strlit("f");
        reveal_strlit("g");
        reveal_strlit("h");
        assert("a"@ =~= seq!['a']);
        assert("b"@ =~= seq!['b']);
        assert("c"@ =~= seq!['c']);
        assert("d"@ =~= seq!['d']);
        assert("e"@ =~= seq!['e']);
        assert("f"@ =~= seq!['f']);
        assert("g"@ =~= seq!['g']);
        assert("h"@ =~= seq!['h']);
    }
    match f {
        0 => "a",
        1 => "b",
        2 => "c",
        3 => "d",
        4 => "e",
        5 => "f",
        6 => "g",
        _ => "h",
    }
}

/// A piece as its FEN letter.
fn piece_str(p: Piece) -> (r: &'static str)
    ensures
        r@ == seq![p.spec_to_char()],
{
    proof {
        reveal_strlit("P");
        reveal_strlit("N");
        reveal_strlit("B");
        reveal_strlit("R");
        reveal_strlit("Q");
        reveal_strlit("K");
        reveal_strlit("p");
        reveal_strlit("n");
        reveal_strlit("b");
        reveal_strlit("r");
        reveal_strlit("q");
        reveal_strlit("k");
        assert("P"@ =~= seq!['P']);
        assert("N"@ =~= seq!['N']);
        assert("B"@ =~= seq!['B']);
        assert("R"@ =~= seq!['R']);
        assert("Q"@ =~= seq!['Q']);
        assert("K"@ =~= seq!['K']);
        assert("p"@ =~= seq!['p']);
        assert("n"@ =~= seq!['n']);
        assert("b"@ =~= seq!['b']);
        assert("r"@ =~= seq!['r']);
        assert("q"@ =~= seq!['q']);
        assert("k"@ =~= seq!['k']);
    }
    match p {
        Piece::WP => "P",
        Piece::WN => "N",
        Piece::WB => "B",
        Piece::WR => "R",
        Piece::WQ => "Q",
        Piece::WK => "K",
        Piece::BP => "p",
        Piece::BN => "n",
        Piece::BB => "b",
        Piece::BR => "r",
        Piece::BQ => "q",
        Piece::BK => "k",
    }
}

/// A number in decimal, appended to the text.
fn push_decimal(out: &mut String, n: u16)
    ensures
        final(out)@ == old(out)@ + spec_dec_chars(n as int),
    decreases n,
{
    let ghost base = out@;
    if n >= 10 {
        push_decimal(out, n / 10);
    }
    let d = (n % 10) as u8;
    out.append(digit_str(d));
    proof {
        if n >= 10 {
            assert(out@ =~= base + spec_dec_chars(n as int));
        } else {
            assert(out@ =~= base + spec_dec_chars(n as int));
        }
    }
}

/// The FEN of the standard starting position.
pub const START_FEN: &'static str = "rnbqkbnr/pppppppp/8/8/8/8/PPPPPPPP/RNBQKBNR w KQkq - 0 1";

impl Default for Board {
    /// The standard starting position: the board the starting FEN denotes.
    fn default() -> (r: Board)
        ensures
            spec_parse_fen(START_FEN.spec_bytes()) matches Some(f) ==> ({
                &&& wf(r@)
                &&& r@.piece_map == f.piece_map
                &&& r@.side == f.side
                &&& r@.castling == f.castling
                &&& r@.enpassant == f.enpassant
                &&& r@.fifty == f.fifty
                &&& r@.ply == f.ply
            }),
    {
        match Board::from_fen(START_FEN) {
            Ok(b) => b,
            Err(_) => Board::new(),
        }
    }
}

impl core::str::FromStr for Board {
    type Err = &'static str;

    fn from_str(s: &str) -> Result<Board, &'static str> {
        Board::from_fen(s)
    }
}

} // verus!
