use vstd::prelude::*;
use crate::bitboard::{bb_has, Bitboard};
use crate::color::Color;
use crate::square::{File, Square};
use crate::tables::{castle_clearance_has, castle_path_has, king_attacks, Tables};

verus! {

/// Get the possible moves of a king on a certain square.
pub fn moves(t: &Tables, square: Square) -> (r: Bitboard)
    requires
        t.wf(),
    ensures
        forall|j: int| #[trigger] bb_has(r.0, j) <==> king_attacks(square.index(), j),
{
    t.king_entry(square)
}

/// Get the squares required not to be under attack when castling.
pub fn castle_path(t: &Tables, color: Color, king_file: File, rook_file: File) -> (r: Bitboard)
    requires
        t.wf(),
    ensures
        forall|j: int|
            #[trigger] bb_has(r.0, j) <==> castle_path_has(
                color.index(),
                king_file.index(),
                if king_file.index() > rook_file.index() {
                    1int
                } else {
                    0int
                },
                j,
            ),
{
    let side: usize = if king_file.to_index() > rook_file.to_index() {
        1
    } else {
        0
    };
    t.castle_path_entry(color.to_index(), king_file.to_index() as usize, side)
}

/// Get the squares required to be empty when castling.
pub fn castle_clearance(t: &Tables, color: Color, king_file: File, rook_file: File) -> (r: Bitboard)
    requires
        t.wf(),
    ensures
        forall|j: int|
            #[trigger] bb_has(r.0, j) <==> castle_clearance_has(
                color.index(),
                king_file.index(),
                if king_file.index() > rook_file.index() {
                    1int
                } else {
                    0int
                },
                j,
            ),
{
    let side: usize = if king_file.to_index() > rook_file.to_index() {
        1
    } else {
        0
    };
    t.castle_clearance_entry(color.to_index(), king_file.to_index() as usize, side)
}

} // verus!
