use vstd::prelude::*;

pub mod bitboard;
pub mod board;
pub mod castle_rights;
pub mod chess_move;
pub mod color;
pub mod generator;
pub mod bishop;
pub mod king;
pub mod knight;
pub mod pawn;
pub mod pawn_moves;
pub mod piece;
pub mod queen;
pub mod rook;
pub mod rays;
pub mod tables;
pub mod square;

verus! {

/// The multiply-and-shift recipe of one magic-bitboard entry: the relevance
/// mask of a square, the magic multiplier, and the index width of the table.
#[derive(Clone, Copy, Debug)]
pub struct Magic {
    pub mask: u64,
    pub mul: u64,
    pub bits: u8,
}

} // verus!
