use laura_core::bitboard::{BitBoard, FILE_A_BITS, RANK_1_BITS, RANK_8_BITS};
use laura_core::square::{File, Rank, Square};

#[test]
fn bitboard_test() {
    let bitboard: BitBoard = BitBoard(2097152);
    // F3
    assert_eq!(bitboard.to_square(), Square(21));
    println!("{:?}", bitboard);
    // G6
    let bitboard: BitBoard = bitboard.set_square(Square(46));
    println!("{:?}", bitboard);
    assert_eq!(bitboard.get_square(Square(46)), true);
    // B5
    let bitboard: BitBoard = bitboard.set_square(Square(33));
    assert_eq!(bitboard.count_bits(), 3);
    println!("{:?}", bitboard);
    let bitboard: BitBoard = bitboard.pop_square(Square(46));
    assert_eq!(bitboard.count_bits(), 2);
    println!("{:?}", bitboard);
}

#[test]
fn flip_mirrors_ranks() {
    assert_eq!(BitBoard(RANK_1_BITS).flip().0, RANK_8_BITS);
    assert_eq!(BitBoard(FILE_A_BITS).flip().0, FILE_A_BITS);
    // A1 becomes A8.
    assert_eq!(BitBoard(1).flip().0, 1u64 << 56);
}

#[test]
fn union_intersect_complement() {
    let a = BitBoard(0b1010);
    let b = BitBoard(0b0110);
    assert_eq!(a.union(b).0, 0b1110);
    assert_eq!(a.intersect(b).0, 0b0010);
    assert_eq!(a.complement().0, !0b1010u64);
    assert!(BitBoard(0).is_empty());
    assert!(!a.is_empty());
}

#[test]
fn to_bitboard_and_from_index() {
    let sq = Square::from_index(33);
    assert_eq!(sq, Square(33));
    assert_eq!(sq.to_bitboard().0, 1u64 << 33);
    assert_eq!(sq.rank().0, 4);
    assert_eq!(sq.file().0, 1);
}

#[test]
fn file_and_rank_navigation() {
    assert_eq!(File(0).right(), File(1));
    assert_eq!(File(7).right(), File(0));
    assert_eq!(File(0).left(), File(7));
    assert_eq!(Rank(7).down(), Rank(6));
    assert_eq!(Rank(0).down(), Rank(7));
    assert_eq!(Rank(7).up(), Rank(0));
    assert_eq!(File(3).to_index(), 3);
    assert_eq!(Rank(5).to_index(), 5);
    assert_eq!(laura_core::square::Square::from_file_rank(File(6), Rank(0)), Square(6));
}
