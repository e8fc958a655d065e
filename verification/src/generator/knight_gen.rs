use vstd::prelude::*;
use crate::bitboard::{bb_has, Bitboard};
use crate::generator::add_target;
use crate::square::Square;
use crate::tables::knight_attacks;

verus! {

/// Build the knight move table by direct enumeration: for each square, the
/// targets of the eight knight offsets that stay on the board.
#[verifier::rlimit(100)]
pub fn generate_moves() -> (r: [Bitboard; 64])
    ensures
        forall|s: int, j: int|
            0 <= s < 64 ==> (#[trigger] bb_has(r@[s].0, j) <==> knight_attacks(s, j)),
{
    let mut table = [Bitboard(0); 64];
    let mut s: usize = 0;
    while s < 64
        invariant
            s <= 64,
            forall|q: int, j: int|
                0 <= q < s ==> (#[trigger] bb_has(table@[q].0, j) <==> knight_attacks(q, j)),
        decreases 64 - s,
    {
        let sq = Square::from_index(s as u8);
        let file = sq.file();
        let rank = sq.rank();
        let mut bb: u64 = 0;
        proof {
            crate::board::lemma_bb_ops(0, 0);
        }
        bb = add_target(bb, file.left(1), rank.up(2));
        bb = add_target(bb, file.right(1), rank.up(2));
        bb = add_target(bb, file.left(1), rank.down(2));
        bb = add_target(bb, file.right(1), rank.down(2));
        bb = add_target(bb, file.left(2), rank.up(1));
        bb = add_target(bb, file.right(2), rank.up(1));
        bb = add_target(bb, file.left(2), rank.down(1));
        bb = add_target(bb, file.right(2), rank.down(1));
        proof {
            assert forall|j: int| #[trigger] bb_has(bb, j) <==> knight_attacks(s as int, j) by {}
        }
        table[s] = Bitboard(bb);
        s = s + 1;
    }
    table
}

} // verus!
