use laura_core::board::Board;
use laura_core::fen::START_FEN;
use laura_core::perft::perft_corpus;

#[test]
fn corpus_round_trips() {
    for (fen, _, _) in perft_corpus() {
        let board = Board::from_fen(fen).unwrap();
        assert_eq!(board.to_fen(), fen);
    }
}

#[test]
fn start_position_round_trips() {
    let board = Board::from_fen(START_FEN).unwrap();
    assert_eq!(board.to_fen(), START_FEN);
    assert_eq!(board.fifty_move(), 0);
    assert_eq!(board.zobrist(), Board::default().zobrist());
}

#[test]
fn fen_rejects_bad_placement() {
    assert_eq!(Board::from_fen(""), Err("Invalid FEN!"));
    // A rank of nine files.
    assert_eq!(
        Board::from_fen("9/8/8/8/8/8/8/8 w - - 0 1"),
        Err("Invalid FEN!")
    );
    // Only seven ranks.
    assert_eq!(Board::from_fen("8/8/8/8/8/8/8 w - - 0 1"), Err("Invalid FEN!"));
    // An unknown piece letter.
    assert_eq!(
        Board::from_fen("x7/8/8/8/8/8/8/8 w - - 0 1"),
        Err("Invalid FEN!")
    );
    // A rank short of files.
    assert_eq!(
        Board::from_fen("rnbqkbnr/pppppppp/8/8/8/8/PPPPPPPP/RNBQKBN w KQkq - 0 1"),
        Err("Invalid FEN!")
    );
}

#[test]
fn fen_rejects_bad_fields() {
    // A side letter that is neither w nor b.
    assert_eq!(Board::from_fen("8/8/8/8/8/8/8/8 x - - 0 1"), Err("Invalid FEN!"));
    // A castling letter outside KQkq.
    assert_eq!(
        Board::from_fen("8/8/8/8/8/8/8/8 w A - 0 1"),
        Err("Invalid FEN!")
    );
    // An en-passant square off rank 3 and rank 6.
    assert_eq!(
        Board::from_fen("8/8/8/8/8/8/8/8 w - e4 0 1"),
        Err("Invalid FEN!")
    );
    // A halfmove clock that is not a number.
    assert_eq!(
        Board::from_fen("8/8/8/8/8/8/8/8 w - - x 1"),
        Err("Invalid Halfmove Clock!")
    );
    // A fullmove number that is not a number.
    assert_eq!(
        Board::from_fen("8/8/8/8/8/8/8/8 w - - 0 x"),
        Err("Invalid Fullmove Number!")
    );
}

#[test]
fn fen_rejects_unbacked_castling_rights() {
    // The right is claimed but the rook is not at home.
    assert_eq!(
        Board::from_fen("4k3/8/8/8/8/8/8/4K3 w K - 0 1"),
        Err("Invalid FEN!")
    );
    // With the rook and king at home the same right parses.
    assert!(Board::from_fen("4k3/8/8/8/8/8/8/4K2R w K - 0 1").is_ok());
}

#[test]
fn fen_accepts_enpassant_square() {
    let board = Board::from_fen("rnbqkbnr/pppppppp/8/8/4P3/8/PPPPPPPP/RNBQKBNR b KQkq e3 0 1")
        .unwrap();
    assert_eq!(board.enpassant_square, Some(laura_core::square::Square(20)));
    assert_eq!(
        board.to_fen(),
        "rnbqkbnr/pppppppp/8/8/4P3/8/PPPPPPPP/RNBQKBNR b KQkq e3 0 1"
    );
}

#[test]
fn counters_render_every_digit() {
    // Counters containing a 9 and several digits round-trip exactly.
    let fen = "4k3/8/8/8/8/8/8/4K3 w - - 19 99";
    let board = Board::from_fen(fen).unwrap();
    assert_eq!(board.to_fen(), fen);
    assert_eq!(board.fifty_move(), 19);
    // The largest fullmove number the field's type allows is accepted.
    let fen = "4k3/8/8/8/8/8/8/4K3 b - - 100 65535";
    let board = Board::from_fen(fen).unwrap();
    assert_eq!(board.to_fen(), fen);
}
