use laura_core::color::Color;
use laura_core::piece::{Piece, PieceType};

#[test]
fn test() {
    let piece: Piece = Piece::new(PieceType::King, Color::White);
    println!(
        "Char: '{}' Color: {:?}, Type: {:?}",
        piece.to_char(),
        piece.color(),
        piece.piece_type()
    );

    let piece: Option<Piece> = Piece::from_index(12);
    println!("{:?}", piece);
    assert_eq!(piece, None);
}

#[test]
fn test_from() {
    let c: char = 'N';
    let piece: Piece = Piece::try_from_char(c).unwrap();
    println!(
        "Char: '{}' Color: {:?}, Type: {:?}",
        piece.to_char(),
        piece.color(),
        piece.piece_type()
    );
    assert_eq!(piece, Piece::WN);
}

#[test]
fn piece_round_trips() {
    let letters = ['P', 'N', 'B', 'R', 'Q', 'K', 'p', 'n', 'b', 'r', 'q', 'k'];
    for (i, c) in letters.iter().enumerate() {
        let p = Piece::try_from_char(*c).unwrap();
        assert_eq!(p.to_index(), i);
        assert_eq!(p.to_char(), *c);
        assert_eq!(Piece::from_index(i), Some(p));
        let expected_color = if i < 6 { Color::White } else { Color::Black };
        assert_eq!(p.color(), expected_color);
    }
    assert!(Piece::try_from_char('x').is_err());
}

#[test]
fn new_packs_color_and_kind() {
    assert_eq!(Piece::new(PieceType::Pawn, Color::White), Piece::WP);
    assert_eq!(Piece::new(PieceType::Rook, Color::Black), Piece::BR);
    assert_eq!(Piece::new(PieceType::Queen, Color::Black).to_index(), 10);
    assert_eq!(Color::White.opposite(), Color::Black);
    assert_eq!(Color::Black.opposite(), Color::White);
}
