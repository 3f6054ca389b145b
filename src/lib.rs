//! Board representation and move application for a chess engine: bitboard
//! primitives, leaper and magic-bitboard slider attacks, a position model with
//! FEN text, reversible make/unmake, Zobrist hashing and a transposition table.
use vstd::prelude::*;

pub mod side;
pub mod pieces;
pub mod errors;
pub mod square;
pub mod castles;
pub mod bitboard;
pub mod attacks;
pub mod position;
pub mod chess_move;
pub mod board;
pub mod zobrist;
pub mod tt;
pub mod fen;
pub mod lines;

verus! {

} // verus!
