use vstd::prelude::*;
use vstd::arithmetic::power2::pow2;
use crate::bitboard::{bb_has, lemma_pcount_missing_bit, pcount, Bitboard};
use crate::board::lemma_bb_ops;
use crate::rays::{bishop_attacks, bv_or, ray_cast, rook_attacks, walk};
use crate::square::Square;
use crate::tables::{magic_ok, mask_spec, midx, slider_attacks};
use crate::Magic;

verus! {

/// Masking twice with the same mask changes nothing.
pub proof fn lemma_and_mask(a: u64, b: u64)
    by (bit_vector)
    ensures
        (a & b) & b == a & b,
{
}

/// The bit-level facts of one step of the lowest-set-bit recursion that
/// deposits index bits into a mask.
proof fn bv_lsb_step(b: u64, mask: u64, mm1: u64, rest: u64, lsb: u64)
    by (bit_vector)
    requires
        mask != 0,
        mm1 + 1 == mask,
        rest == mask & mm1,
        lsb == mask ^ rest,
    ensures
        rest < mask,
        b & mask == b ==> (b & rest) & rest == b & rest,
        b & lsb == 0 || b & lsb == lsb,
        (b & mask == b && b & lsb == lsb) ==> (lsb | (b & rest)) == b,
        (b & mask == b && b & lsb == 0) ==> (b & rest) == b,
        b & 0 == 0,
        0 & mask == 0,
        lsb | 0 == lsb,
        0 | (b & rest) == b & rest,
{
}

/// The relation between clearing the lowest set bit and shifting by one,
/// used to tie the two bit-counting recursions together.
proof fn bv_lsb_shift(x: u64)
    by (bit_vector)
    requires
        x != 0,
    ensures
        x & 1 == 1 ==> ((x & ((x - 1) as u64)) >> 1u64 == x >> 1u64 && (x & ((x - 1) as u64)) & 1
            == 0),
        x & 1 == 0 ==> ((x & ((x - 1) as u64)) >> 1u64 == (x >> 1u64) & (((x >> 1u64) - 1) as u64)
            && (x & ((x - 1) as u64)) & 1 == 0 && (x >> 1u64) != 0),
        (x & 1 == 1 && x & ((x - 1) as u64) == 0) ==> x >> 1u64 == 0,
        x >> 1u64 < x,
        x & 1 == 0 || x & 1 == 1,
{
}

/// Clearing the lowest set bit removes exactly one from the bit count.
pub proof fn lemma_pcount_lsb(x: u64)
    requires
        x != 0,
    ensures
        pcount(x & ((x - 1) as u64)) + 1 == pcount(x),
    decreases x,
{
    bv_lsb_shift(x);
    let r = x & ((x - 1) as u64);
    if x & 1 == 1 {
        if r != 0 {
            assert(pcount(r) == pcount(r >> 1u64));
        }
        assert(pcount(x) == 1 + pcount(x >> 1u64));
        if r == 0 {
            assert(pcount(x >> 1u64) == 0);
        }
    } else {
        let y = x >> 1u64;
        assert(y < x);
        assert(y != 0);
        lemma_pcount_lsb(y);
        if r != 0 {
            assert(r & 1 == 0);
            assert(r >> 1u64 == y & ((y - 1) as u64));
            assert(pcount(r) == pcount(r >> 1u64));
        } else {
            assert(y & ((y - 1) as u64) == 0) by (bit_vector)
                requires
                    r == 0 && r == x & ((x - 1) as u64) && x & 1 == 0 && x != 0 && y == x >> 1u64,
            ;
            assert(pcount(r) == 0);
        }
        assert(pcount(x) == pcount(y));
    }
}

/// The blocker subset that the index `i` selects from `mask`: each bit of
/// `i` is deposited into the next lowest set bit of the mask.
pub open spec fn deposit(mask: u64, i: nat) -> u64
    decreases mask,
    via deposit_decreases
{
    if mask == 0 {
        0
    } else {
        let rest = mask & ((mask - 1) as u64);
        let lsb = mask ^ rest;
        (if i % 2 == 1 {
            lsb
        } else {
            0
        }) | deposit(rest, i / 2)
    }
}

#[via_fn]
proof fn deposit_decreases(mask: u64, i: nat) {
    if mask != 0 {
        bv_lsb_step(0, mask, (mask - 1) as u64, mask & ((mask - 1) as u64), mask ^ (mask & ((mask
            - 1) as u64)));
    }
}

/// The index whose deposit into `mask` gives back the subset `b`.
pub open spec fn extract(b: u64, mask: u64) -> nat
    decreases mask,
    via extract_decreases
{
    if mask == 0 {
        0
    } else {
        let rest = mask & ((mask - 1) as u64);
        let lsb = mask ^ rest;
        ((if b & lsb == lsb {
            1nat
        } else {
            0nat
        }) + 2 * extract(b & rest, rest)) as nat
    }
}

#[via_fn]
proof fn extract_decreases(b: u64, mask: u64) {
    if mask != 0 {
        bv_lsb_step(b, mask, (mask - 1) as u64, mask & ((mask - 1) as u64), mask ^ (mask & ((mask
            - 1) as u64)));
    }
}

/// Depositing the extracted index of a subset gives the subset back: the
/// enumeration of deposits reaches every subset of the mask.
pub proof fn lemma_deposit_extract(b: u64, mask: u64)
    requires
        b & mask == b,
    ensures
        deposit(mask, extract(b, mask)) == b,
    decreases mask,
{
    if mask == 0 {
        assert(b & 0 == 0) by (bit_vector);
    } else {
        let mm1 = (mask - 1) as u64;
        let rest = mask & mm1;
        let lsb = mask ^ rest;
        bv_lsb_step(b, mask, mm1, rest, lsb);
        lemma_deposit_extract(b & rest, rest);
        let e = extract(b, mask);
        let bit: nat = if b & lsb == lsb {
            1
        } else {
            0
        };
        let ep = extract(b & rest, rest);
        assert(e == bit + 2 * ep);
        assert(e % 2 == bit && e / 2 == ep);
    }
}

/// The extracted index of a subset is below two to the bit count of the
/// mask.
pub proof fn lemma_extract_bound(b: u64, mask: u64)
    ensures
        extract(b, mask) < pow2(pcount(mask)),
    decreases mask,
{
    vstd::arithmetic::power2::lemma_pow2_pos(pcount(mask));
    if mask == 0 {
    } else {
        let mm1 = (mask - 1) as u64;
        let rest = mask & mm1;
        let lsb = mask ^ rest;
        bv_lsb_step(b, mask, mm1, rest, lsb);
        lemma_pcount_lsb(mask);
        lemma_extract_bound(b & rest, rest);
        assert(pow2(pcount(mask)) == 2 * pow2(pcount(rest))) by {
            vstd::arithmetic::power2::lemma_pow2_unfold(pcount(mask));
        }
    }
}

/// Relies on `fastrand::u64` over the full range: a random draw from the
/// thread-local generator; nothing is promised of the value.
#[verifier::external_body]
fn random_u64() -> u64 {
    fastrand::u64(..)
}

/// A random value biased toward few set bits, the usual seed shape for the
/// magic-multiplier search.
fn random_u64_few_bits() -> u64 {
    random_u64() & random_u64() & random_u64()
}

/// Spread the low bits of `i` into the set bits of `bb`, enumerating the
/// subsets of a mask as `i` counts up.
pub fn shift_bits_into(bb: Bitboard, i: u64) -> (r: Bitboard)
    ensures
        r.0 == deposit(bb.0, i as nat),
{
    let mut m: u64 = bb.0;
    let mut ii: u64 = i;
    let mut res: u64 = 0;
    proof {
        bv_or(deposit(bb.0, i as nat), 0, 0);
    }
    loop
        invariant_except_break
            deposit(bb.0, i as nat) == res | deposit(m, ii as nat),
        ensures
            res == deposit(bb.0, i as nat),
        decreases m,
    {
        if m == 0 {
            proof {
                bv_or(res, 0, 0);
            }
            break ;
        }
        let mm1 = m - 1;
        let rest = m & mm1;
        let lsb = m ^ rest;
        proof {
            bv_lsb_step(0, m, mm1, rest, lsb);
            assert(ii & 1 == ii % 2 && ii >> 1u64 == ii / 2) by (bit_vector);
            let part = if ii % 2 == 1 {
                lsb
            } else {
                0u64
            };
            bv_or(res, part, deposit(rest, (ii / 2) as nat));
            bv_or(res, 0, 0);
        }
        if ii & 1 == 1 {
            res = res | lsb;
        }
        ii = ii >> 1u64;
        m = rest;
    }
    Bitboard(res)
}

/// The dense-table index of a blocker subset under a magic entry.
pub fn to_index(bb: Bitboard, magic: &Magic) -> (r: u64)
    requires
        magic.bits <= 63,
    ensures
        r == midx(bb.0, magic.mul, magic.bits),
        magic.bits > 0 ==> r < (1u64 << (magic.bits as u64)),
    {
    if magic.bits == 0 {
        0
    } else {
        let sh: u64 = 64 - (magic.bits as u64);
        let r = bb.0.wrapping_mul(magic.mul) >> sh;
        proof {
            let x = vstd::wrapping::u64_specs::wrapping_mul(bb.0, magic.mul);
            let bits = magic.bits as u64;
            assert((x >> sh) < (1u64 << bits)) by (bit_vector)
                requires
                    1 <= bits <= 63 && sh + bits == 64,
            ;
        }
        r
    }
}

/// The true attack set of a bishop over an exact blocker subset, by
/// ray-casting in the four diagonal directions.
pub fn bishop_block(blockers: Bitboard, sq: Square) -> (r: Bitboard)
    ensures
        r.0 == bishop_attacks(sq.index(), blockers.0),
{
    let a = ray_cast(sq, 1, 1, blockers.0);
    let b = ray_cast(sq, 1, -1, blockers.0);
    let c = ray_cast(sq, -1, 1, blockers.0);
    let d = ray_cast(sq, -1, -1, blockers.0);
    r4(a, b, c, d)
}

/// The true attack set of a rook over an exact blocker subset, by
/// ray-casting in the four orthogonal directions.
pub fn rook_block(blockers: Bitboard, sq: Square) -> (r: Bitboard)
    ensures
        r.0 == rook_attacks(sq.index(), blockers.0),
{
    let a = ray_cast(sq, 1, 0, blockers.0);
    let b = ray_cast(sq, -1, 0, blockers.0);
    let c = ray_cast(sq, 0, 1, blockers.0);
    let d = ray_cast(sq, 0, -1, blockers.0);
    r4(a, b, c, d)
}

/// Union of the four directional walks of a slider.
fn r4(a: u64, b: u64, c: u64, d: u64) -> (r: Bitboard)
    ensures
        r.0 == ((a | b) | c) | d,
{
    Bitboard(a | b | c | d)
}

/// Every square a directional walk reaches lies strictly beyond the start
/// in the walk's direction.
pub proof fn lemma_walk_dir(f: int, r: int, df: int, dr: int, occ: u64, n: nat)
    requires
        -1 <= df <= 1,
        -1 <= dr <= 1,
    ensures
        forall|j: int|
            #[trigger] bb_has(walk(f, r, df, dr, occ, n), j) ==> ((df > 0 ==> j % 8 > f) && (df < 0
                ==> j % 8 < f) && (dr > 0 ==> j / 8 > r) && (dr < 0 ==> j / 8 < r) && (df == 0 ==> j
                % 8 == f) && (dr == 0 ==> j / 8 == r)),
    decreases n,
{
    lemma_bb_ops(0, 0);
    if n > 0 {
        let nf = f + df;
        let nr = r + dr;
        if 0 <= nf < 8 && 0 <= nr < 8 {
            lemma_walk_dir(nf, nr, df, dr, occ, (n - 1) as nat);
            let rest = if bb_has(occ, nr * 8 + nf) {
                0u64
            } else {
                walk(nf, nr, df, dr, occ, (n - 1) as nat)
            };
            lemma_bb_ops(crate::bitboard::sq_bb(nr * 8 + nf), rest);
            crate::bitboard::lemma_sq_bb(nr * 8 + nf);
            lemma_bb_ops(rest, rest);
        }
    }
}

/// A slider never attacks its own square, so the relevance mask misses at
/// least one bit and its bit count stays below 64.
pub proof fn lemma_mask_bits(bishop: bool, s: int)
    requires
        0 <= s < 64,
    ensures
        pcount(mask_spec(s, slider_attacks(bishop, s, 0))) <= 63,
{
    let atk = slider_attacks(bishop, s, 0);
    let f = s % 8;
    let r = s / 8;
    lemma_walk_dir(f, r, 1, 1, 0, 8);
    lemma_walk_dir(f, r, 1, -1, 0, 8);
    lemma_walk_dir(f, r, -1, 1, 0, 8);
    lemma_walk_dir(f, r, -1, -1, 0, 8);
    lemma_walk_dir(f, r, 1, 0, 0, 8);
    lemma_walk_dir(f, r, -1, 0, 0, 8);
    lemma_walk_dir(f, r, 0, 1, 0, 8);
    lemma_walk_dir(f, r, 0, -1, 0, 8);
    if bishop {
        lemma_bb_ops(walk(f, r, 1, 1, 0, 8), walk(f, r, 1, -1, 0, 8));
        lemma_bb_ops(walk(f, r, 1, 1, 0, 8) | walk(f, r, 1, -1, 0, 8), walk(f, r, -1, 1, 0, 8));
        lemma_bb_ops(
            (walk(f, r, 1, 1, 0, 8) | walk(f, r, 1, -1, 0, 8)) | walk(f, r, -1, 1, 0, 8),
            walk(f, r, -1, -1, 0, 8),
        );
    } else {
        lemma_bb_ops(walk(f, r, 1, 0, 0, 8), walk(f, r, -1, 0, 0, 8));
        lemma_bb_ops(walk(f, r, 1, 0, 0, 8) | walk(f, r, -1, 0, 0, 8), walk(f, r, 0, 1, 0, 8));
        lemma_bb_ops(
            (walk(f, r, 1, 0, 0, 8) | walk(f, r, -1, 0, 0, 8)) | walk(f, r, 0, 1, 0, 8),
            walk(f, r, 0, -1, 0, 8),
        );
    }
    assert(!bb_has(atk, s));
    let m0 = if s % 8 != 0 {
        atk & !crate::tables::FILE_A_BB
    } else {
        atk
    };
    let m1 = if s % 8 != 7 {
        m0 & !crate::tables::FILE_H_BB
    } else {
        m0
    };
    let m2 = if s / 8 != 0 {
        m1 & !crate::tables::RANK_1_BB
    } else {
        m1
    };
    lemma_bb_ops(atk, crate::tables::FILE_A_BB);
    lemma_bb_ops(m0, crate::tables::FILE_H_BB);
    lemma_bb_ops(m1, crate::tables::RANK_1_BB);
    lemma_bb_ops(m2, crate::tables::RANK_8_BB);
    let mask = mask_spec(s, atk);
    assert(!bb_has(mask, s));
    crate::board::lemma_bit01(mask, s as u64);
    lemma_pcount_missing_bit(mask, s as u64);
}

/// Enumerate every blocker subset of a mask, pairing each with its true
/// ray-cast attack set.
pub fn gen_blocker_tb(mask: Bitboard, sq: Square, bishop: bool) -> (r: Vec<(Bitboard, Bitboard)>)
    requires
        pcount(mask.0) <= 63,
    ensures
        r@.len() == pow2(pcount(mask.0)),
        forall|k: int|
            0 <= k < r@.len() ==> ((#[trigger] r@[k]).0.0 == deposit(mask.0, k as nat) && r@[k].1.0
                == slider_attacks(bishop, sq.index(), deposit(mask.0, k as nat))),
{
    let bits = mask.popcnt();
    let n: u64 = 1u64 << (bits as u64);
    proof {
        vstd::bits::lemma_u64_pow2_no_overflow(bits as nat);
        vstd::bits::lemma_u64_shl_is_mul(1u64, bits as u64);
    }
    let mut table: Vec<(Bitboard, Bitboard)> = Vec::new();
    let mut i: u64 = 0;
    while i < n
        invariant
            n == pow2(pcount(mask.0)),
            i <= n,
            table@.len() == i,
            forall|k: int|
                0 <= k < i ==> ((#[trigger] table@[k]).0.0 == deposit(mask.0, k as nat)
                    && table@[k].1.0 == slider_attacks(bishop, sq.index(), deposit(mask.0, k as nat))),
        decreases n - i,
    {
        let blockers = shift_bits_into(mask, i);
        let attacks = if bishop {
            bishop_block(blockers, sq)
        } else {
            rook_block(blockers, sq)
        };
        table.push((blockers, attacks));
        i = i + 1;
    }
    table
}

/// Search for a magic multiplier for one square: draw sparse random
/// candidates and keep the first whose index map never sends two subsets
/// with different attack sets to the same slot.
pub fn find_magic(mask: Bitboard, table: &Vec<(Bitboard, Bitboard)>) -> (r: Option<
    (Vec<Bitboard>, Magic),
>)
    requires
        pcount(mask.0) <= 63,
        table@.len() == pow2(pcount(mask.0)),
    ensures
        match r {
            Some(t) => {
                &&& t.1.mask == mask.0
                &&& t.1.bits == pcount(mask.0)
                &&& t.1.bits <= 63
                &&& forall|k: int|
                    0 <= k < table@.len() ==> ((#[trigger] midx(table@[k].0.0, t.1.mul, t.1.bits))
                        < t.0@.len() && t.0@[midx(table@[k].0.0, t.1.mul, t.1.bits) as int]
                        == table@[k].1)
            },
            None => true,
        },
{
    let bits: u8 = mask.popcnt() as u8;
    let len = table.len();
    proof {
        vstd::arithmetic::power2::lemma_pow2_pos(pcount(mask.0));
    }
    let mut tries: u64 = 0;
    while tries < u64::MAX
        invariant
            bits == pcount(mask.0),
            bits <= 63,
            len == table@.len(),
            len == pow2(pcount(mask.0)),
            len >= 1,
        decreases u64::MAX - tries,
    {
        tries = tries + 1;
        let trial_mul = random_u64_few_bits();
        let trial = Magic { mask: mask.0, mul: trial_mul, bits };
        if Bitboard(mask.0.wrapping_mul(trial_mul)).popcnt() < 6 {
            continue ;
        }
        let mut used: Vec<Bitboard> = Vec::new();
        let mut filled: Vec<bool> = Vec::new();
        let mut j: usize = 0;
        while j < len
            invariant
                j <= len,
                used@.len() == j,
                filled@.len() == j,
                forall|x: int| 0 <= x < j ==> !(#[trigger] filled@[x]),
            decreases len - j,
        {
            used.push(Bitboard(0));
            filled.push(false);
            j = j + 1;
        }
        let mut max_idx: usize = 0;
        let mut ok = true;
        let mut k: usize = 0;
        while k < len && ok
            invariant
                bits == pcount(mask.0),
                bits <= 63,
                len == table@.len(),
                len == pow2(pcount(mask.0)),
                len >= 1,
                k <= len,
                used@.len() == len,
                filled@.len() == len,
                max_idx < len,
                trial.mask == mask.0,
                trial.bits == bits,
                forall|x: int| 0 <= x < len ==> (#[trigger] filled@[x] ==> x <= max_idx),
                ok ==> forall|q: int|
                    0 <= q < k ==> ((#[trigger] midx(table@[q].0.0, trial.mul, trial.bits))
                        <= max_idx && filled@[midx(table@[q].0.0, trial.mul, trial.bits) as int]
                        && used@[midx(table@[q].0.0, trial.mul, trial.bits) as int]
                        == table@[q].1),
            decreases len - k,
        {
            let idx64 = to_index(table[k].0, &trial);
            proof {
                if trial.bits > 0 {
                    vstd::bits::lemma_u64_pow2_no_overflow(trial.bits as nat);
                    vstd::bits::lemma_u64_shl_is_mul(1u64, trial.bits as u64);
                }
            }
            let idx = idx64 as usize;
            if !filled[idx] {
                used[idx] = table[k].1;
                filled[idx] = true;
                if idx > max_idx {
                    max_idx = idx;
                }
            } else if used[idx].0 != table[k].1.0 {
                ok = false;
            }
            k = k + 1;
        }
        if ok {
            let ghost pre_tr = used@;
            used.truncate(max_idx + 1);
            proof {
                assert forall|q: int| 0 <= q < table@.len() implies ((#[trigger] midx(
                    table@[q].0.0,
                    trial.mul,
                    trial.bits,
                )) < used@.len() && used@[midx(table@[q].0.0, trial.mul, trial.bits) as int]
                    == table@[q].1) by {
                    assert(midx(table@[q].0.0, trial.mul, trial.bits) <= max_idx);
                }
            }
            return Some((used, trial));
        }
    }
    None
}

/// Build the magic table of every square for one slider kind.
pub fn gen(rays: &[Bitboard; 64], bishop: bool) -> (r: Option<Vec<(Magic, Vec<Bitboard>)>>)
    requires
        forall|s: int| 0 <= s < 64 ==> (#[trigger] rays@[s]).0 == slider_attacks(bishop, s, 0),
    ensures
        match r {
            Some(v) => v@.len() == 64 && forall|s: int|
                0 <= s < 64 ==> magic_ok(#[trigger] v@[s], bishop, s),
            None => true,
        },
{
    let mut out: Vec<(Magic, Vec<Bitboard>)> = Vec::new();
    let mut s: usize = 0;
    while s < 64
        invariant
            s <= 64,
            out@.len() == s,
            forall|q: int| 0 <= q < 64 ==> (#[trigger] rays@[q]).0 == slider_attacks(bishop, q, 0),
            forall|q: int| 0 <= q < s ==> magic_ok(#[trigger] out@[q], bishop, q),
        decreases 64 - s,
    {
        let sq = Square::from_index(s as u8);
        let atk = rays[s];
        let mut mk: u64 = atk.0;
        if s % 8 != 0 {
            mk = mk & !crate::tables::FILE_A_BB;
        }
        if s % 8 != 7 {
            mk = mk & !crate::tables::FILE_H_BB;
        }
        if s / 8 != 0 {
            mk = mk & !crate::tables::RANK_1_BB;
        }
        if s / 8 != 7 {
            mk = mk & !crate::tables::RANK_8_BB;
        }
        proof {
            assert(mk == mask_spec(s as int, slider_attacks(bishop, s as int, 0)));
            lemma_mask_bits(bishop, s as int);
        }
        let tb = gen_blocker_tb(Bitboard(mk), sq, bishop);
        let fm = match find_magic(Bitboard(mk), &tb) {
            Some(t) => t,
            None => {
                return None;
            },
        };
        proof {
            let m = fm.1;
            let used = fm.0;
            assert forall|b: u64| b & mk == b implies ((#[trigger] midx(b, m.mul, m.bits))
                < used@.len() && used@[midx(b, m.mul, m.bits) as int].0 == slider_attacks(
                bishop,
                s as int,
                b,
            )) by {
                lemma_deposit_extract(b, mk);
                lemma_extract_bound(b, mk);
                let i = extract(b, mk);
                assert(tb@[i as int].0.0 == deposit(mk, i));
                assert(midx(tb@[i as int].0.0, m.mul, m.bits) < used@.len());
            }
        }
        out.push((fm.1, fm.0));
        s = s + 1;
    }
    Some(out)
}

/// Build the magic tables of both slider kinds from the full ray tables.
pub fn generate_tables(bishop_rays: &[Bitboard; 64], rook_rays: &[Bitboard; 64]) -> (r: Option<
    (Vec<(Magic, Vec<Bitboard>)>, Vec<(Magic, Vec<Bitboard>)>),
>)
    requires
        forall|s: int| 0 <= s < 64 ==> (#[trigger] bishop_rays@[s]).0 == bishop_attacks(s, 0),
        forall|s: int| 0 <= s < 64 ==> (#[trigger] rook_rays@[s]).0 == rook_attacks(s, 0),
    ensures
        match r {
            Some(t) => {
                &&& t.0@.len() == 64
                &&& t.1@.len() == 64
                &&& forall|s: int| 0 <= s < 64 ==> magic_ok(#[trigger] t.0@[s], true, s)
                &&& forall|s: int| 0 <= s < 64 ==> magic_ok(#[trigger] t.1@[s], false, s)
            },
            None => true,
        },
{
    let b = match gen(bishop_rays, true) {
        Some(v) => v,
        None => {
            return None;
        },
    };
    let r = match gen(rook_rays, false) {
        Some(v) => v,
        None => {
            return None;
        },
    };
    Some((b, r))
}

} // verus!
