use vstd::prelude::*;
use crate::bitboard::Bitboard;
use crate::rays::rook_attacks;
use crate::square::Square;
use crate::tables::{slider_moves_spec, Tables};

verus! {

/// Get the rays of a rook on the specified square.
pub fn rays(t: &Tables, square: Square) -> (r: Bitboard)
    requires
        t.wf(),
    ensures
        r.0 == rook_attacks(square.index(), 0),
{
    t.rook_ray(square)
}

/// Get the possible moves of a rook given the pieces on the board, assuming
/// they're enemy pieces.
pub fn moves(t: &Tables, square: Square, blockers: Bitboard) -> (r: Bitboard)
    requires
        t.wf(),
    ensures
        r.0 == slider_moves_spec(false, square.index(), blockers.0),
{
    t.rook_moves(square, blockers)
}

} // verus!
