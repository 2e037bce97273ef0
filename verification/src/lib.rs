//! A chess position core: bitboards, pieces, castling rights, Zobrist
//! hashing, FEN input and output, and the move-application transaction,
//! together with a depth-bounded perft driver over an abstract move
//! generator.

pub mod attacks;
pub mod bitboard;
pub mod bits;
pub mod board;
pub mod castle_rights;
pub mod color;
pub mod fen;
pub mod laws;
pub mod model;
pub mod moves;
pub mod perft;
pub mod piece;
pub mod preserve;
pub mod square;
pub mod zobrist;
