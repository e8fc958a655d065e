use vstd::prelude::*;
use crate::bitboard::{bb_has, Bitboard};
use crate::color::Color;
use crate::square::Square;
use crate::tables::{pawn_adv_target, pawn_cap_attacks, Tables};

verus! {

/// Get the raw advance targets of a pawn, without regard to occupancy.
pub fn pawn_advances(t: &Tables, color: Color, square: Square) -> (r: Bitboard)
    requires
        t.wf(),
    ensures
        forall|j: int|
            #[trigger] bb_has(r.0, j) <==> pawn_adv_target(color.index(), square.index(), j),
{
    t.pawn_advance_entry(color, square)
}

/// Get the capture targets of a pawn.
pub fn pawn_captures(t: &Tables, color: Color, square: Square) -> (r: Bitboard)
    requires
        t.wf(),
    ensures
        forall|j: int|
            #[trigger] bb_has(r.0, j) <==> pawn_cap_attacks(color.index(), square.index(), j),
{
    t.pawn_capture_entry(color, square)
}

} // verus!
