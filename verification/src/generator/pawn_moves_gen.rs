use vstd::prelude::*;
use crate::bitboard::{bb_has, Bitboard};
use crate::tables::{pawn_adv_target, pawn_cap_attacks};

verus! {

/// Build the raw per-square pawn advance table; the same enumeration the
/// occupancy-aware pawn module starts from.
pub fn generate_advances() -> (r: [[Bitboard; 64]; 2])
    ensures
        forall|c: int, s: int, j: int|
            0 <= c < 2 && 0 <= s < 64 ==> (#[trigger] bb_has(r@[c]@[s].0, j) <==> pawn_adv_target(
                c,
                s,
                j,
            )),
{
    crate::generator::pawn_gen::generate_advances()
}

/// Build the raw per-square pawn capture table.
pub fn generate_captures() -> (r: [[Bitboard; 64]; 2])
    ensures
        forall|c: int, s: int, j: int|
            0 <= c < 2 && 0 <= s < 64 ==> (#[trigger] bb_has(r@[c]@[s].0, j) <==> pawn_cap_attacks(
                c,
                s,
                j,
            )),
{
    crate::generator::pawn_gen::generate_captures()
}

/// Build both raw pawn tables.
pub fn generate_moves() -> (r: ([[Bitboard; 64]; 2], [[Bitboard; 64]; 2]))
    ensures
        forall|c: int, s: int, j: int|
            0 <= c < 2 && 0 <= s < 64 ==> (#[trigger] bb_has(r.0@[c]@[s].0, j) <==> pawn_adv_target(
                c,
                s,
                j,
            )),
        forall|c: int, s: int, j: int|
            0 <= c < 2 && 0 <= s < 64 ==> (#[trigger] bb_has(r.1@[c]@[s].0, j)
                <==> pawn_cap_attacks(c, s, j)),
{
    (generate_advances(), generate_captures())
}

} // verus!
