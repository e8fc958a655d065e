use vstd::prelude::*;
use crate::bitboard::Bitboard;
use crate::generator::magic_gen::{bishop_block, rook_block};
use crate::rays::{bishop_attacks, rook_attacks};
use crate::square::Square;

verus! {

/// Build the bishop ray table: each square's diagonal attack set on an
/// empty board.
pub fn generate_bishop() -> (r: [Bitboard; 64])
    ensures
        forall|s: int| 0 <= s < 64 ==> (#[trigger] r@[s]).0 == bishop_attacks(s, 0),
{
    let mut table = [Bitboard(0); 64];
    let mut s: usize = 0;
    while s < 64
        invariant
            s <= 64,
            forall|q: int| 0 <= q < s ==> (#[trigger] table@[q]).0 == bishop_attacks(q, 0),
        decreases 64 - s,
    {
        table[s] = bishop_block(Bitboard(0), Square::from_index(s as u8));
        s = s + 1;
    }
    table
}

/// Build the rook ray table: each square's orthogonal attack set on an
/// empty board.
pub fn generate_rook() -> (r: [Bitboard; 64])
    ensures
        forall|s: int| 0 <= s < 64 ==> (#[trigger] r@[s]).0 == rook_attacks(s, 0),
{
    let mut table = [Bitboard(0); 64];
    let mut s: usize = 0;
    while s < 64
        invariant
            s <= 64,
            forall|q: int| 0 <= q < s ==> (#[trigger] table@[q]).0 == rook_attacks(q, 0),
        decreases 64 - s,
    {
        table[s] = rook_block(Bitboard(0), Square::from_index(s as u8));
        s = s + 1;
    }
    table
}

/// Build both slider ray tables.
pub fn generate_rays() -> (r: ([Bitboard; 64], [Bitboard; 64]))
    ensures
        forall|s: int| 0 <= s < 64 ==> (#[trigger] r.0@[s]).0 == bishop_attacks(s, 0),
        forall|s: int| 0 <= s < 64 ==> (#[trigger] r.1@[s]).0 == rook_attacks(s, 0),
{
    (generate_bishop(), generate_rook())
}

} // verus!
