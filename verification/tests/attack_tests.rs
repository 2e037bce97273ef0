use laura_core::attacks::{gen_pawn_attacks, king_attacks, knight_attacks, rook_attacks};
use laura_core::bitboard::BitBoard;
use laura_core::color::Color;
use laura_core::square::Square;

#[test]
fn test_gen_attacks() {
    let pawn_attacks: [[BitBoard; 64]; 2] = gen_pawn_attacks();

    // E3
    let square: usize = Square(20).to_index();
    let color: Color = Color::White;
    println!(
        "Pawn attacks ({:?}) from E3: {:?}",
        color,
        pawn_attacks[color.side_index()][square]
    );

    // D5
    let square: usize = Square(35).to_index();
    let color: Color = Color::Black;
    println!(
        "Pawn attacks ({:?}) from D5: {:?}",
        color,
        pawn_attacks[color.side_index()][square]
    );
}

#[test]
fn gen_attacks() {
    let attacks: [[BitBoard; 64]; 2] = gen_pawn_attacks();
    println!("{:?}", attacks);
}

#[test]
fn pawn_attack_table_values() {
    let table = gen_pawn_attacks();
    // A white pawn on E3 attacks D4 and F4.
    assert_eq!(table[0][20].0, (1u64 << 27) | (1u64 << 29));
    // A black pawn on D5 attacks C4 and E4.
    assert_eq!(table[1][35].0, (1u64 << 26) | (1u64 << 28));
    // A white pawn on A2 attacks only B3; one on the last rank attacks nothing.
    assert_eq!(table[0][8].0, 1u64 << 17);
    assert_eq!(table[0][56].0, 0);
    assert_eq!(table[1][0].0, 0);
}

#[test]
fn knight_and_king_attack_values() {
    // A knight on A1 attacks B3 and C2.
    assert_eq!(knight_attacks(Square(0)).0, (1u64 << 17) | (1u64 << 10));
    // A knight in the middle has all eight targets.
    assert_eq!(knight_attacks(Square(27)).count_bits(), 8);
    // A king on A1 attacks A2, B1 and B2.
    assert_eq!(
        king_attacks(Square(0)).0,
        (1u64 << 8) | (1u64 << 1) | (1u64 << 9)
    );
    assert_eq!(king_attacks(Square(27)).count_bits(), 8);
}

#[test]
fn rook_rays_stop_at_blockers() {
    // An empty board: a rook on A1 sweeps its rank and file.
    let attacks = rook_attacks(0, Square(0));
    assert_eq!(attacks.count_bits(), 14);
    // A blocker on A4: the northern ray ends there, and A4 itself is attacked.
    let occ = 1u64 << 24;
    let attacks = rook_attacks(occ, Square(0));
    assert!(attacks.get_square(Square(24)));
    assert!(!attacks.get_square(Square(32)));
}
