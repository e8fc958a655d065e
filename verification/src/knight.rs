use vstd::prelude::*;
use crate::bitboard::{bb_has, Bitboard};
use crate::square::Square;
use crate::tables::{knight_attacks, Tables};

verus! {

/// Get the possible moves of a knight on a certain square.
pub fn moves(t: &Tables, square: Square) -> (r: Bitboard)
    requires
        t.wf(),
    ensures
        forall|j: int| #[trigger] bb_has(r.0, j) <==> knight_attacks(square.index(), j),
{
    t.knight_entry(square)
}

} // verus!
