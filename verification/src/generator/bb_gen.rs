use vstd::prelude::*;
use crate::bitboard::{bb_has, Bitboard};
use crate::board::lemma_bb_ops;
use crate::square::{File, Rank};

verus! {

/// The four edges of the board combined.
pub fn generate_edge() -> (r: Bitboard)
    ensures
        forall|j: int|
            #[trigger] bb_has(r.0, j) <==> (0 <= j < 64 && (j % 8 == 0 || j % 8 == 7 || j / 8 == 0
                || j / 8 == 7)),
{
    let fa = Bitboard::from_file(File::A);
    let fh = Bitboard::from_file(File::H);
    let r1 = Bitboard::from_rank(Rank::_1);
    let r8 = Bitboard::from_rank(Rank::_8);
    proof {
        lemma_bb_ops(fa.0, fh.0);
        lemma_bb_ops(fa.0 | fh.0, r1.0);
        lemma_bb_ops((fa.0 | fh.0) | r1.0, r8.0);
    }
    Bitboard(fa.0 | fh.0 | r1.0 | r8.0)
}

/// The prefix unions of the ranks: entry `k` holds every square on a rank
/// strictly below rank `k`.
pub fn generate_lefts() -> (r: [Bitboard; 8])
    ensures
        forall|k: int, j: int|
            0 <= k < 8 ==> (#[trigger] bb_has(r@[k].0, j) <==> (0 <= j < 64 && j / 8 < k)),
{
    let mut table = [Bitboard(0); 8];
    let mut acc: u64 = 0;
    let mut k: usize = 0;
    proof {
        lemma_bb_ops(0, 0);
    }
    while k < 8
        invariant
            k <= 8,
            forall|j: int| #[trigger] bb_has(acc, j) <==> (0 <= j < 64 && j / 8 < k),
            forall|k2: int, j: int|
                0 <= k2 < k ==> (#[trigger] bb_has(table@[k2].0, j) <==> (0 <= j < 64 && j / 8
                    < k2)),
        decreases 8 - k,
    {
        table[k] = Bitboard(acc);
        let rb = Bitboard::from_rank(Rank::from_index(k as u8));
        proof {
            lemma_bb_ops(acc, rb.0);
        }
        acc = acc | rb.0;
        k = k + 1;
    }
    table
}

/// The suffix unions of the ranks: entry `k` holds every square on a rank
/// strictly above rank `k`.
pub fn generate_rights() -> (r: [Bitboard; 8])
    ensures
        forall|k: int, j: int|
            0 <= k < 8 ==> (#[trigger] bb_has(r@[k].0, j) <==> (0 <= j < 64 && j / 8 > k)),
{
    let mut table = [Bitboard(0); 8];
    let mut k: usize = 8;
    let mut acc: u64 = 0;
    proof {
        lemma_bb_ops(0, 0);
    }
    while k > 0
        invariant
            k <= 8,
            forall|j: int| #[trigger] bb_has(acc, j) <==> (0 <= j < 64 && j / 8 >= k),
            forall|k2: int, j: int|
                k <= k2 < 8 ==> (#[trigger] bb_has(table@[k2].0, j) <==> (0 <= j < 64 && j / 8
                    > k2)),
        decreases k,
    {
        k = k - 1;
        table[k] = Bitboard(acc);
        let rb = Bitboard::from_rank(Rank::from_index(k as u8));
        proof {
            lemma_bb_ops(acc, rb.0);
        }
        acc = acc | rb.0;
    }
    table
}

/// Build the edge and prefix tables.
pub fn generate_data() -> (r: (Bitboard, [Bitboard; 8], [Bitboard; 8]))
    ensures
        forall|j: int|
            #[trigger] bb_has(r.0.0, j) <==> (0 <= j < 64 && (j % 8 == 0 || j % 8 == 7 || j / 8 == 0
                || j / 8 == 7)),
        forall|k: int, j: int|
            0 <= k < 8 ==> (#[trigger] bb_has(r.1@[k].0, j) <==> (0 <= j < 64 && j / 8 < k)),
        forall|k: int, j: int|
            0 <= k < 8 ==> (#[trigger] bb_has(r.2@[k].0, j) <==> (0 <= j < 64 && j / 8 > k)),
{
    (generate_edge(), generate_lefts(), generate_rights())
}

} // verus!
