use vstd::prelude::*;
use crate::square::{File, Rank, Square};

verus! {

/// A bitboard: a set of board squares, one bit per square index
/// `rank * 8 + file`.
#[derive(Clone, Copy, Debug, PartialEq, Eq, Structural, Hash)]
pub struct Bitboard(pub u64);

/// Whether bit `i` of `b` is set. Out-of-board indices are never members.
pub open spec fn bb_has(b: u64, i: int) -> bool {
    0 <= i < 64 && (b >> (i as u64)) & 1 == 1
}

/// The bitboard holding exactly the square with index `i`.
pub open spec fn sq_bb(i: int) -> u64 {
    1u64 << (i as u64)
}

/// Small bit-level facts about shifting one position, shared by the counting
/// proofs below.
proof fn bv_step(x: u64)
    by (bit_vector)
    ensures
        x != 0 ==> (x >> 1u64) < x,
        (x >> 1u64) == x / 2,
        (x & 1) <= 1,
        x >> 0u64 == x,
        x & !(u64::MAX << 0u64) == 0,
        (x >> 0u64) & 1 == x & 1,
        x & 1 == 1 ==> x != 0,
{
}

/// Bit-level facts relating a value, its right shift by one, and its low-bit
/// masks at positions `j` and `j - 1`.
proof fn bv_shift_pair(x: u64, j: u64, jm1: u64)
    by (bit_vector)
    requires
        1 <= j < 64,
        jm1 + 1 == j,
    ensures
        (x >> 1u64) >> jm1 == x >> j,
        (x & !(u64::MAX << j)) & 1 == x & 1,
        (x & !(u64::MAX << j)) >> 1u64 == (x >> 1u64) & !(u64::MAX << jm1),
        x & !(u64::MAX << j) == 0 ==> x & 1 == 0,
        x & !(u64::MAX << j) != 0 ==> x != 0,
        (x >> j) & 1 == 1 ==> x != 0 && ((x >> 1u64) >> jm1) & 1 == 1,
        x & !(u64::MAX << j) == 0 ==> (x >> 1u64) & !(u64::MAX << jm1) == 0,
{
}

/// Range facts about the split of a value at bit position `j`.
proof fn bv_bound(x: u64, j: u64, k: u64)
    by (bit_vector)
    requires
        j < 64,
        k + j == 63,
    ensures
        j != 0 ==> (x & !(u64::MAX << j)) < (1u64 << j),
        ((x >> j) >> 1u64) < (1u64 << k),
        j == 0 ==> x & !(u64::MAX << j) == 0,
{
}

/// Facts about two distinct bit positions of one value.
proof fn bv_two(x: u64, iu: u64, ju: u64)
    by (bit_vector)
    requires
        ju < 64,
    ensures
        ((x >> ju) >> 0u64) & 1 == (x >> ju) & 1,
        (x >> ju) & 1 != 0 ==> (x >> ju) & 1 == 1,
        iu < ju && (x >> iu) & 1 == 1 ==> ((x & !(u64::MAX << ju)) >> iu) & 1 == 1,
{
}

/// A one-bit bitboard has exactly its own bit set.
proof fn bv_single(iu: u64, ju: u64)
    by (bit_vector)
    requires
        iu < 64,
        ju < 64,
    ensures
        (((1u64 << iu) >> ju) & 1 == 1) == (iu == ju),
{
}

/// The members of a file column and of a rank row bitboard.
proof fn bv_lines(f: u64, k: u64, m: u64, ju: u64)
    by (bit_vector)
    requires
        f < 8,
        k < 8,
        m == 8 * k,
        ju < 64,
    ensures
        (((0x0101010101010101u64 << f) >> ju) & 1 == 1) == (ju % 8 == f),
        (((0xffu64 << m) >> ju) & 1 == 1) == (ju / 8 == k),
{
}

/// Clearing the lowest set bit of `x` keeps every other bit.
proof fn bv_iter_next(x: u64, n: u64, x2: u64, t: u64, k: u64, ju: u64)
    by (bit_vector)
    requires
        n + 1 == x,
        x != 0,
        x2 == x & n,
        t < 64,
        (x >> t) & 1 == 1,
        x << k == 0,
        k + t == 64,
        ju < 64,
    ensures
        ((x2 >> ju) & 1 == 1) == ((x >> ju) & 1 == 1 && ju != t),
        x2 < x,
{
}

/// The one square of `sq_bb(i)` is `i` itself.
pub proof fn lemma_sq_bb(i: int)
    requires
        0 <= i < 64,
    ensures
        forall|j: int| #[trigger] bb_has(sq_bb(i), j) <==> j == i,
{
    assert forall|j: int| #[trigger] bb_has(sq_bb(i), j) <==> j == i by {
        if 0 <= j < 64 {
            bv_single(i as u64, j as u64);
        }
    }
}

/// The number of set bits of `x`.
pub open spec fn pcount(x: u64) -> nat
    decreases x,
    via pcount_decreases
{
    if x == 0 {
        0
    } else {
        ((x & 1) as nat + pcount(x >> 1)) as nat
    }
}

#[via_fn]
proof fn pcount_decreases(x: u64) {
    bv_step(x);
}

/// The low `j` bits of `x`.
pub open spec fn low_bits(x: u64, j: u64) -> u64 {
    x & !(u64::MAX << j)
}

/// The number of set bits of a value below `2^n` is at most `n`.
pub proof fn lemma_pcount_le(x: u64, n: nat)
    requires
        n <= 64,
        (x as nat) < vstd::arithmetic::power2::pow2(n),
    ensures
        pcount(x) <= n,
    decreases n,
{
    vstd::arithmetic::power2::lemma2_to64();
    if x != 0 {
        assert(n > 0) by {
            vstd::arithmetic::power2::lemma_pow2(0);
        }
        bv_step(x);
        assert(vstd::arithmetic::power2::pow2(n) == 2 * vstd::arithmetic::power2::pow2(
            (n - 1) as nat,
        )) by {
            vstd::arithmetic::power2::lemma_pow2_unfold(n);
        }
        lemma_pcount_le(x >> 1u64, (n - 1) as nat);
    }
}

/// Counting set bits splits at position `j`: the total is the count of the
/// low `j` bits plus the count of the rest.
pub proof fn lemma_pcount_split(x: u64, j: u64)
    requires
        j < 64,
    ensures
        pcount(x) == pcount(low_bits(x, j)) + pcount(x >> j),
    decreases j,
{
    if j == 0 {
        bv_step(x);
    } else {
        lemma_pcount_split(x >> 1u64, (j - 1) as u64);
        let lo = low_bits(x, j);
        let lo1 = low_bits(x >> 1u64, (j - 1) as u64);
        bv_shift_pair(x, j, (j - 1) as u64);
        if lo == 0 {
            if x != 0 {
                assert(pcount(x) == pcount(x >> 1u64));
            }
        } else {
            assert(pcount(lo) == (x & 1) + pcount(lo >> 1u64));
        }
    }
}

/// A set bit makes the count positive.
pub proof fn lemma_pcount_pos(x: u64, i: int)
    requires
        bb_has(x, i),
    ensures
        pcount(x) >= 1,
    decreases i,
{
    if i == 0 {
        bv_step(x);
    } else {
        bv_shift_pair(x, i as u64, (i - 1) as u64);
        lemma_pcount_pos(x >> 1u64, i - 1);
    }
}

/// A value with a clear bit has at most 63 set bits.
pub proof fn lemma_pcount_missing_bit(x: u64, j: u64)
    requires
        j < 64,
        (x >> j) & 1 == 0,
    ensures
        pcount(x) <= 63,
{
    vstd::arithmetic::power2::lemma2_to64();
    lemma_pcount_split(x, j);
    let lo = low_bits(x, j);
    let hi = x >> j;
    let k: u64 = (63 - j) as u64;
    bv_bound(x, j, k);
    assert((1u64 << j) as nat == vstd::arithmetic::power2::pow2(j as nat)) by {
        vstd::bits::lemma_u64_pow2_no_overflow(j as nat);
        vstd::bits::lemma_u64_shl_is_mul(1u64, j);
    }
    lemma_pcount_le(lo, j as nat);
    // the remaining bits start with a zero, so only 63 - j of them can be set
    if hi != 0 {
        assert(pcount(hi) == pcount(hi >> 1u64));
    }
    assert((1u64 << k) as nat == vstd::arithmetic::power2::pow2(k as nat)) by {
        vstd::bits::lemma_u64_pow2_no_overflow(k as nat);
        vstd::bits::lemma_u64_shl_is_mul(1u64, k);
    }
    lemma_pcount_le(hi >> 1u64, k as nat);
}

/// Two distinct set bits make the count at least two.
pub proof fn lemma_pcount_two(x: u64, i: int, j: int)
    requires
        bb_has(x, i),
        bb_has(x, j),
        i < j,
    ensures
        pcount(x) >= 2,
{
    lemma_pcount_split(x, j as u64);
    let lo = low_bits(x, j as u64);
    let hi = x >> (j as u64);
    let iu = i as u64;
    let ju = j as u64;
    bv_two(x, iu, ju);
    assert(bb_has(hi, 0));
    lemma_pcount_pos(hi, 0);
    assert(bb_has(lo, i));
    lemma_pcount_pos(lo, i);
}

impl Bitboard {
    /// Get if this bitboard is empty.
    pub fn is_empty(self) -> (r: bool)
        ensures
            r == (self.0 == 0),
    {
        self.0 == 0
    }

    /// Get the number of set bits in this bitboard.
    pub fn popcnt(self) -> (r: u32)
        ensures
            r == pcount(self.0),
    {
        proof {
            vstd::arithmetic::power2::lemma2_to64();
            lemma_pcount_le(self.0, 64);
        }
        let mut x: u64 = self.0;
        let mut c: u32 = 0;
        while x != 0
            invariant
                c + pcount(x) == pcount(self.0),
                pcount(self.0) <= 64,
            decreases x,
        {
            proof {
                bv_step(x);
            }
            c = c + (x & 1) as u32;
            x = x >> 1u64;
        }
        c
    }

    /// Get the first square in this bitboard, or [`None`] if it is empty.
    pub fn first_square(self) -> (r: Option<Square>)
        ensures
            match r {
                None => self.0 == 0,
                Some(s) => bb_has(self.0, s.index()) && forall|j: int|
                    0 <= j < s.index() ==> !bb_has(self.0, j),
            },
    {
        if self.0 == 0 {
            return None;
        }
        let tz = self.0.trailing_zeros();
        proof {
            vstd::std_specs::bits::axiom_u64_trailing_zeros(self.0);
            assert forall|j: int| 0 <= j < tz implies !bb_has(self.0, j) by {
                assert((self.0 >> (j as u64)) & 1 == 0);
            }
        }
        Some(Square::from_index(tz as u8))
    }

    /// Get the last square in this bitboard, or [`None`] if it is empty.
    pub fn last_square(self) -> (r: Option<Square>)
        ensures
            match r {
                None => self.0 == 0,
                Some(s) => bb_has(self.0, s.index()) && forall|j: int|
                    s.index() < j < 64 ==> !bb_has(self.0, j),
            },
    {
        if self.0 == 0 {
            return None;
        }
        proof {
            vstd::std_specs::bits::axiom_u64_trailing_zeros(self.0);
        }
        let ghost tz = vstd::std_specs::bits::u64_trailing_zeros(self.0);
        let mut k: u64 = 63;
        while (self.0 >> k) & 1 == 0
            invariant
                self.0 != 0,
                tz == vstd::std_specs::bits::u64_trailing_zeros(self.0),
                tz <= k < 64,
                (self.0 >> (tz as u64)) & 1u64 == 1u64,
                forall|j: int| k < j < 64 ==> !bb_has(self.0, j),
            decreases k,
        {
            proof {
                assert(k != tz);
            }
            k = k - 1;
        }
        proof {
            bv_two(self.0, 0, k);
        }
        Some(Square::from_index(k as u8))
    }

    /// Convert this bitboard to its one square. It fails when the bitboard
    /// does not hold exactly one square, reporting the actual number of
    /// squares held.
    pub fn to_square(self) -> (r: Result<Square, u32>)
        ensures
            match r {
                Ok(s) => pcount(self.0) == 1 && bb_has(self.0, s.index()) && forall|j: int|
                    j != s.index() ==> !bb_has(self.0, j),
                Err(c) => c == pcount(self.0) && pcount(self.0) != 1,
            },
    {
        let c = self.popcnt();
        if c != 1 {
            return Err(c);
        }
        let r = self.first_square();
        match r {
            Some(s) => {
                proof {
                    let si = s.index();
                    assert forall|j: int| j != si implies !bb_has(self.0, j) by {
                        if bb_has(self.0, j) {
                            if j < si {
                                lemma_pcount_two(self.0, j, si);
                            } else {
                                lemma_pcount_two(self.0, si, j);
                            }
                        }
                    }
                }
                Ok(s)
            },
            None => {
                proof {
                    assert(pcount(0u64) == 0);
                }
                Err(0)
            },
        }
    }

    /// The bitboard holding exactly the given square.
    pub fn from_square(sq: Square) -> (r: Bitboard)
        ensures
            r.0 == sq_bb(sq.index()),
            forall|j: int| #[trigger] bb_has(r.0, j) <==> j == sq.index(),
    {
        let i = sq.to_u8();
        proof {
            assert forall|j: int| #[trigger] bb_has(1u64 << (i as u64), j) <==> j == i as int by {
                if 0 <= j < 64 {
                    bv_single(i as u64, j as u64);
                }
            }
        }
        Bitboard(1u64 << (i as u64))
    }

    /// The bitboard with a vertical line on the given file.
    pub fn from_file(file: File) -> (r: Bitboard)
        ensures
            forall|j: int| #[trigger] bb_has(r.0, j) <==> (0 <= j < 64 && j % 8 == file.index()),
    {
        let f = file.to_index();
        let v = 0x0101010101010101u64 << (f as u64);
        proof {
            assert forall|j: int| #[trigger]
                bb_has(v, j) <==> (0 <= j < 64 && j % 8 == f as int) by {
                if 0 <= j < 64 {
                    bv_lines(f as u64, 0, 0, j as u64);
                }
            }
        }
        Bitboard(v)
    }

    /// The bitboard with a horizontal line on the given rank.
    pub fn from_rank(rank: Rank) -> (r: Bitboard)
        ensures
            forall|j: int| #[trigger] bb_has(r.0, j) <==> (0 <= j < 64 && j / 8 == rank.index()),
    {
        let k = rank.to_index();
        let v = 0xffu64 << ((k * 8) as u64);
        proof {
            assert forall|j: int| #[trigger] bb_has(v, j) <==> (0 <= j < 64 && j / 8 == k as int) by {
                if 0 <= j < 64 {
                    bv_lines(0, k as u64, (k * 8) as u64, j as u64);
                }
            }
        }
        Bitboard(v)
    }

    /// A consuming iterator that yields the squares of this bitboard in
    /// ascending index order.
    pub fn iter(self) -> (r: BitboardIter)
        ensures
            r.0 == self,
    {
        BitboardIter(self)
    }
}

/// An iterator over the squares of a bitboard, in ascending index order.
#[derive(Clone, Copy, Debug, Hash)]
pub struct BitboardIter(pub Bitboard);

impl BitboardIter {
    /// Get whether the iterator is empty or not.
    pub fn had_emptied(&self) -> (r: bool)
        ensures
            r == (self.0.0 == 0),
    {
        self.0.is_empty()
    }

    /// Get the squares that aren't iterated through yet.
    pub fn remainder(&self) -> (r: Bitboard)
        ensures
            r == self.0,
    {
        self.0
    }

    /// Yield the next square: the lowest-index square still in the set, which
    /// is then removed from the remainder.
    pub fn next(&mut self) -> (r: Option<Square>)
        ensures
            match r {
                None => old(self).0.0 == 0 && final(self).0 == old(self).0,
                Some(s) => {
                    &&& final(self).0.0 < old(self).0.0
                    &&& bb_has(old(self).0.0, s.index())
                    &&& forall|j: int| 0 <= j < s.index() ==> !bb_has(old(self).0.0, j)
                    &&& forall|j: int|
                        #[trigger] bb_has(final(self).0.0, j) <==> (bb_has(old(self).0.0, j) && j
                            != s.index())
                },
            },
    {
        let x = self.0.0;
        if x == 0 {
            return None;
        }
        let tz = x.trailing_zeros();
        let n = x - 1;
        let x2 = x & n;
        proof {
            vstd::std_specs::bits::axiom_u64_trailing_zeros(x);
            assert forall|j: int| 0 <= j < tz implies !bb_has(x, j) by {
                assert((x >> (j as u64)) & 1 == 0);
            }
            let t = tz as u64;
            let k: u64 = (64 - tz) as u64;
            assert(x << k == 0);
            bv_iter_next(x, n, x2, t, k, 0);
            assert forall|j: int| 0 <= j < 64 implies (#[trigger] (x2 >> (j as u64)) & 1 == 1 <==> (
            (x >> (j as u64)) & 1 == 1 && j != t)) by {
                bv_iter_next(x, n, x2, t, k, j as u64);
            }
        }
        self.0 = Bitboard(x2);
        Some(Square::from_index(tz as u8))
    }
}

} // verus!
