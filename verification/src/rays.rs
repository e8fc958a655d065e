use vstd::prelude::*;
use crate::bitboard::{bb_has, sq_bb, Bitboard};
use crate::square::Square;
use crate::tables::Tables;

verus! {

/// Term-level identities of the bitboard union.
pub(crate) proof fn bv_or(a: u64, b: u64, c: u64)
    by (bit_vector)
    ensures
        (a | b) | c == a | (b | c),
        a | 0 == a,
        0 | a == a,
        a | b == b | a,
{
}

/// The squares a slider reaches from `(f, r)` in direction `(df, dr)` over
/// the occupancy `occ`, by walking up to `n` steps: each square entered is
/// reached, and the walk stops at (and includes) the first occupied square
/// or at the board edge.
pub open spec fn walk(f: int, r: int, df: int, dr: int, occ: u64, n: nat) -> u64
    decreases n,
{
    if n == 0 {
        0
    } else {
        let nf = f + df;
        let nr = r + dr;
        if !(0 <= nf < 8 && 0 <= nr < 8) {
            0
        } else {
            sq_bb(nr * 8 + nf) | (if bb_has(occ, nr * 8 + nf) {
                0
            } else {
                walk(nf, nr, df, dr, occ, (n - 1) as nat)
            })
        }
    }
}

/// The full attack set of a bishop on square `s` over occupancy `occ`: the
/// four diagonal walks.
pub open spec fn bishop_attacks(s: int, occ: u64) -> u64 {
    walk(s % 8, s / 8, 1, 1, occ, 8) | walk(s % 8, s / 8, 1, -1, occ, 8) | walk(
        s % 8,
        s / 8,
        -1,
        1,
        occ,
        8,
    ) | walk(s % 8, s / 8, -1, -1, occ, 8)
}

/// The full attack set of a rook on square `s` over occupancy `occ`: the
/// four orthogonal walks.
pub open spec fn rook_attacks(s: int, occ: u64) -> u64 {
    walk(s % 8, s / 8, 1, 0, occ, 8) | walk(s % 8, s / 8, -1, 0, occ, 8) | walk(
        s % 8,
        s / 8,
        0,
        1,
        occ,
        8,
    ) | walk(s % 8, s / 8, 0, -1, occ, 8)
}

/// Walk one slider ray, accumulating the squares entered until the first
/// blocker or the board edge.
pub(crate) fn ray_cast(sq: Square, df: i8, dr: i8, occ: u64) -> (res: u64)
    requires
        -1 <= df <= 1,
        -1 <= dr <= 1,
    ensures
        res == walk(sq.file_index(), sq.rank_index(), df as int, dr as int, occ, 8),
{
    let mut cf: i8 = sq.file().to_index() as i8;
    let mut cr: i8 = sq.rank().to_index() as i8;
    let mut acc: u64 = 0;
    let mut fuel: u8 = 8;
    let ghost target = walk(sq.file_index(), sq.rank_index(), df as int, dr as int, occ, 8);
    proof {
        bv_or(target, 0, 0);
    }
    loop
        invariant_except_break
            -1 <= df <= 1,
            -1 <= dr <= 1,
            0 <= cf < 8,
            0 <= cr < 8,
            fuel <= 8,
            target == acc | walk(cf as int, cr as int, df as int, dr as int, occ, fuel as nat),
        ensures
            acc == target,
        decreases fuel,
    {
        if fuel == 0 {
            proof {
                bv_or(acc, 0, 0);
            }
            break ;
        }
        let nf = cf + df;
        let nr = cr + dr;
        if nf < 0 || nf >= 8 || nr < 0 || nr >= 8 {
            proof {
                bv_or(acc, 0, 0);
            }
            break ;
        }
        let idx: u8 = (nr as u8) * 8 + (nf as u8);
        let b = 1u64 << (idx as u64);
        proof {
            let rest = if bb_has(occ, idx as int) {
                0u64
            } else {
                walk(nf as int, nr as int, df as int, dr as int, occ, (fuel - 1) as nat)
            };
            bv_or(acc, b, rest);
        }
        acc = acc | b;
        if (occ >> (idx as u64)) & 1 == 1 {
            proof {
                bv_or(acc, 0, 0);
            }
            break ;
        }
        cf = nf;
        cr = nr;
        fuel = fuel - 1;
    }
    acc
}

/// Get the rays of a bishop on the specified square: its attack set on an
/// empty board.
pub fn bishop_rays(t: &Tables, square: Square) -> (r: Bitboard)
    requires
        t.wf(),
    ensures
        r.0 == bishop_attacks(square.index(), 0),
{
    t.bishop_ray(square)
}

/// Get the rays of a rook on the specified square: its attack set on an
/// empty board.
pub fn rook_rays(t: &Tables, square: Square) -> (r: Bitboard)
    requires
        t.wf(),
    ensures
        r.0 == rook_attacks(square.index(), 0),
{
    t.rook_ray(square)
}

/// Get the rays of a queen on the specified square: the bishop and rook rays
/// combined.
pub fn queen_rays(t: &Tables, square: Square) -> (r: Bitboard)
    requires
        t.wf(),
    ensures
        r.0 == bishop_attacks(square.index(), 0) | rook_attacks(square.index(), 0),
{
    Bitboard(t.bishop_ray(square).0 | t.rook_ray(square).0)
}

} // verus!
