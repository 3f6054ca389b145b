//! Rook, bishop and queen attacks from magic-bitboard tables, and by occluded fills.
use vstd::arithmetic::power2::{lemma_pow2_pos, lemma_pow2_unfold, pow2};
use vstd::prelude::*;

use bitintr::{Pdep, Pext};

use crate::bitboard::{
    cardinal_ray_attacks, diagonal_ray_attacks, east_fill, east_shift, has_bit, north_east_fill,
    north_east_shift, north_fill, north_shift, north_west_fill, north_west_shift, south_east_fill,
    south_east_shift, south_fill, south_shift, south_west_fill, south_west_shift,
    spec_cardinal_ray_attacks, spec_diagonal_ray_attacks, spec_east_fill, spec_east_shift,
    spec_north_east_fill, spec_north_east_shift, spec_north_fill, spec_north_shift,
    spec_north_west_fill, spec_north_west_shift, spec_south_east_fill, spec_south_east_shift,
    spec_south_fill, spec_south_shift, spec_south_west_fill, spec_south_west_shift, spec_west_fill,
    spec_west_shift, west_fill, west_shift,
};
use crate::square::masks::{A_FILE, H_FILE, RANK_1, RANK_8};
use crate::square::{bit_mask, Square};

verus! {

/// The four edges of the board.
pub const EDGES: u64 = 0xFF818181818181FF;

/// Whether bit `i` of `x` is set.
pub open spec fn bit_at(x: u64, i: int) -> bool {
    has_bit(x, i as u64)
}

/// The number of set bits of `m` at index `i` or above.
pub open spec fn popcount_from(m: u64, i: int) -> nat
    decreases 64 - i,
{
    if i >= 64 {
        0
    } else {
        (if bit_at(m, i) { 1nat } else { 0nat }) + popcount_from(m, i + 1)
    }
}

/// Parallel bit extraction: the bits of `x` at the set bits of `m` from index
/// `i` up, packed into the low bits of the result, lowest first.
pub open spec fn pext_from(x: u64, m: u64, i: int) -> nat
    decreases 64 - i,
{
    if i >= 64 {
        0
    } else if bit_at(m, i) {
        (if bit_at(x, i) { 1nat } else { 0nat }) + 2 * pext_from(x, m, i + 1)
    } else {
        pext_from(x, m, i + 1)
    }
}

/// Parallel bit deposit: the low bits of `v`, lowest first, placed at the set
/// bits of `m` from index `i` up; every other bit is clear.
pub open spec fn pdep_from(v: nat, m: u64, i: int) -> nat
    decreases 64 - i,
{
    if i >= 64 {
        0
    } else if bit_at(m, i) {
        (v % 2) * pow2(i as nat) + pdep_from(v / 2, m, i + 1)
    } else {
        pdep_from(v, m, i + 1)
    }
}

/// Relies on bitintr's `Pext` for `u64`: the bits of `x` at the set bits of
/// `mask`, packed into the low bits, lowest first. Its software loop doubles a
/// `u64` once per set bit of `mask`, so a full mask would overflow.
#[verifier::external_body]
fn extract_bits(x: u64, mask: u64) -> (r: u64)
    requires
        mask != 0xFFFF_FFFF_FFFF_FFFFu64,
    ensures
        r as nat == pext_from(x, mask, 0),
{
    x.pext(mask)
}

/// Relies on bitintr's `Pdep` for `u64`: the low bits of `v` placed, lowest
/// first, at the set bits of `mask`. Its software loop doubles a `u64` once per
/// set bit of `mask`, so a full mask would overflow.
#[verifier::external_body]
fn deposit_bits(v: u64, mask: u64) -> (r: u64)
    requires
        mask != 0xFFFF_FFFF_FFFF_FFFFu64,
    ensures
        r as nat == pdep_from(v as nat, mask, 0),
{
    v.pdep(mask)
}

/// The squares whose occupancy can block a rook on the single square of `b`:
/// its rays without the board edge at their end and without the square itself.
pub open spec fn spec_rook_occupancy_mask(b: u64) -> u64 {
    spec_rook_inner_rays(b) & !b
}

/// The rays of a rook on the set squares of `b`, each without the board edge at its end.
pub open spec fn spec_rook_inner_rays(b: u64) -> u64 {
    (spec_north_fill(spec_north_shift(b)) & !RANK_8) | (spec_south_fill(spec_south_shift(b)) & !RANK_1)
        | (spec_east_fill(spec_east_shift(b)) & !H_FILE) | (spec_west_fill(spec_west_shift(b)) & !A_FILE)
}

/// The squares whose occupancy can block a bishop on the single square of `b`:
/// its diagonals without the board edges and without the square itself.
pub open spec fn spec_bishop_occupancy_mask(b: u64) -> u64 {
    spec_bishop_inner_rays(b) & !b
}

/// The diagonals of a bishop on the set squares of `b`, without the board edges.
pub open spec fn spec_bishop_inner_rays(b: u64) -> u64 {
    (spec_north_east_fill(spec_north_east_shift(b)) | spec_north_west_fill(spec_north_west_shift(b))
        | spec_south_east_fill(spec_south_east_shift(b)) | spec_south_west_fill(spec_south_west_shift(b)))
        & !EDGES
}

/// Slider attacks from `from` with `empty` the empty squares: a rook's or a bishop's.
pub open spec fn spec_slider_attacks(rook: bool, from: u64, empty: u64) -> u64 {
    if rook {
        spec_cardinal_ray_attacks(from, empty)
    } else {
        spec_diagonal_ray_attacks(from, empty)
    }
}

/// The relevant-occupancy mask of a slider.
pub open spec fn spec_occupancy_mask(rook: bool, from: u64) -> u64 {
    if rook {
        spec_rook_occupancy_mask(from)
    } else {
        spec_bishop_occupancy_mask(from)
    }
}

/// A table of attacks for one square: entry `i` holds the attacks when the
/// blockers are the relevant squares picked by the bits of `i`.
pub open spec fn attack_row_holds(row: Seq<u64>, rook: bool, from: u64, m: u64) -> bool {
    &&& row.len() == pow2(popcount_from(m, 0))
    &&& forall|i: int|
        0 <= i < row.len() ==> #[trigger] row[i] == spec_slider_attacks(rook, from, !(pdep_from(i as nat, m, 0) as u64))
}

/// What a table lookup yields: the attacks with the relevant part of
/// `occupied` as blockers.
pub open spec fn spec_lookup(rook: bool, from: u64, occupied: u64) -> u64 {
    let m = spec_occupancy_mask(rook, from);
    spec_slider_attacks(rook, from, !(pdep_from(pext_from(occupied, m, 0), m, 0) as u64))
}

/// Magic-bitboard attack tables for rooks and bishops, built once and then only read.
pub struct SlidingAttacks {
    rook_masks: Vec<u64>,
    bishop_masks: Vec<u64>,
    rook_table: Vec<Vec<u64>>,
    bishop_table: Vec<Vec<u64>>,
}

impl SlidingAttacks {
    /// Every square has its relevant-occupancy masks and a full table of attacks.
    pub closed spec fn wf(&self) -> bool {
        &&& self.rook_masks@.len() == 64
        &&& self.bishop_masks@.len() == 64
        &&& self.rook_table@.len() == 64
        &&& self.bishop_table@.len() == 64
        &&& forall|s: int|
            0 <= s < 64 ==> #[trigger] self.rook_masks@[s] == spec_rook_occupancy_mask(bit_mask(s))
                && self.bishop_masks@[s] == spec_bishop_occupancy_mask(bit_mask(s))
                && attack_row_holds(self.rook_table@[s]@, true, bit_mask(s), self.rook_masks@[s])
                && attack_row_holds(self.bishop_table@[s]@, false, bit_mask(s), self.bishop_masks@[s])
    }

    /// Builds the rook and bishop tables for every square.
    pub fn new() -> (r: SlidingAttacks)
        ensures
            r.wf(),
    {
        let mut rook_masks: Vec<u64> = Vec::new();
        let mut bishop_masks: Vec<u64> = Vec::new();
        let mut rook_table: Vec<Vec<u64>> = Vec::new();
        let mut bishop_table: Vec<Vec<u64>> = Vec::new();
        let mut s: u64 = 0;
        while s < 64
            invariant
                s <= 64,
                rook_masks@.len() == s,
                bishop_masks@.len() == s,
                rook_table@.len() == s,
                bishop_table@.len() == s,
                forall|t: int|
                    0 <= t < s ==> #[trigger] rook_masks@[t] == spec_rook_occupancy_mask(bit_mask(t))
                        && bishop_masks@[t] == spec_bishop_occupancy_mask(bit_mask(t))
                        && attack_row_holds(rook_table@[t]@, true, bit_mask(t), rook_masks@[t])
                        && attack_row_holds(bishop_table@[t]@, false, bit_mask(t), bishop_masks@[t]),
            decreases 64 - s,
        {
            let from = 1u64 << s;
            let rm = occupancy_mask_of(true, from);
            let bm = occupancy_mask_of(false, from);
            proof {
                lemma_mask_excludes_source(rm, bm, from, s);
            }
            let rrow = attack_row(true, from, rm);
            let brow = attack_row(false, from, bm);
            rook_masks.push(rm);
            bishop_masks.push(bm);
            rook_table.push(rrow);
            bishop_table.push(brow);
            s = s + 1;
        }
        SlidingAttacks { rook_masks, bishop_masks, rook_table, bishop_table }
    }

    /// Rook attacks from `from_square` over `occupied_mask`, read from the
    /// table; the same as the attacks computed by occluded fills.
    pub fn rook_attacks(&self, from_square: Square, occupied_mask: u64) -> (r: u64)
        requires
            self.wf(),
        ensures
            r == spec_cardinal_ray_attacks(bit_mask(from_square.spec_offset()), !occupied_mask),
    {
        self.lookup(true, from_square, occupied_mask)
    }

    /// Bishop attacks from `from_square` over `occupied_mask`, read from the
    /// table; the same as the attacks computed by occluded fills.
    pub fn bishop_attacks(&self, from_square: Square, occupied_mask: u64) -> (r: u64)
        requires
            self.wf(),
        ensures
            r == spec_diagonal_ray_attacks(bit_mask(from_square.spec_offset()), !occupied_mask),
    {
        self.lookup(false, from_square, occupied_mask)
    }

    /// Queen attacks: the union of rook and bishop attacks.
    pub fn queen_attacks(&self, from_square: Square, occupied_mask: u64) -> (r: u64)
        requires
            self.wf(),
        ensures
            r == spec_cardinal_ray_attacks(bit_mask(from_square.spec_offset()), !occupied_mask)
                | spec_diagonal_ray_attacks(bit_mask(from_square.spec_offset()), !occupied_mask),
    {
        self.lookup(true, from_square, occupied_mask) | self.lookup(false, from_square, occupied_mask)
    }

    fn lookup(&self, rook: bool, from_square: Square, occupied_mask: u64) -> (r: u64)
        requires
            self.wf(),
        ensures
            r == spec_lookup(rook, bit_mask(from_square.spec_offset()), occupied_mask),
            r == spec_slider_attacks(rook, bit_mask(from_square.spec_offset()), !occupied_mask),
    {
        proof {
            lemma_magic_lookup_matches_fill(rook, from_square.spec_offset(), occupied_mask);
        }
        let s = from_square.offset() as usize;
        let from = from_square.mask();
        let m = if rook { self.rook_masks[s] } else { self.bishop_masks[s] };
        proof {
            assert(self.rook_masks@[s as int] == spec_rook_occupancy_mask(bit_mask(s as int)));
            lemma_mask_excludes_source(self.rook_masks@[s as int], self.bishop_masks@[s as int], from, s as u64);
            lemma_pext_bound(occupied_mask, m, 0);
        }
        let index = get_attack_index(occupied_mask, m);
        if rook {
            let row = &self.rook_table[s];
            let n = row.len();
            assert(index < n);
            row[index as usize]
        } else {
            let row = &self.bishop_table[s];
            let n = row.len();
            assert(index < n);
            row[index as usize]
        }
    }
}

/// Rook attacks computed without tables, by occluded fills.
pub fn rook_attacks_direct(from_square: Square, occupied_mask: u64) -> (r: u64)
    ensures
        r == spec_cardinal_ray_attacks(bit_mask(from_square.spec_offset()), !occupied_mask),
{
    cardinal_ray_attacks(from_square.mask(), !occupied_mask)
}

/// Bishop attacks computed without tables, by occluded fills.
pub fn bishop_attacks_direct(from_square: Square, occupied_mask: u64) -> (r: u64)
    ensures
        r == spec_diagonal_ray_attacks(bit_mask(from_square.spec_offset()), !occupied_mask),
{
    diagonal_ray_attacks(from_square.mask(), !occupied_mask)
}

/// Queen attacks computed without tables, by occluded fills.
pub fn queen_attacks_direct(from_square: Square, occupied_mask: u64) -> (r: u64)
    ensures
        r == spec_diagonal_ray_attacks(bit_mask(from_square.spec_offset()), !occupied_mask)
            | spec_cardinal_ray_attacks(bit_mask(from_square.spec_offset()), !occupied_mask),
{
    let from = from_square.mask();
    diagonal_ray_attacks(from, !occupied_mask) | cardinal_ray_attacks(from, !occupied_mask)
}

/// The squares whose occupancy can block a rook on `sq`.
pub fn rook_occupancy_mask(sq: Square) -> (r: u64)
    ensures
        r == spec_rook_occupancy_mask(bit_mask(sq.spec_offset())),
{
    occupancy_mask_of(true, sq.mask())
}

/// The squares whose occupancy can block a bishop on `sq`.
pub fn bishop_occupancy_mask(sq: Square) -> (r: u64)
    ensures
        r == spec_bishop_occupancy_mask(bit_mask(sq.spec_offset())),
{
    occupancy_mask_of(false, sq.mask())
}

fn occupancy_mask_of(rook: bool, b: u64) -> (r: u64)
    ensures
        r == spec_occupancy_mask(rook, b),
{
    if rook {
        ((north_fill(north_shift(b)) & !RANK_8) | (south_fill(south_shift(b)) & !RANK_1) | (east_fill(
            east_shift(b),
        ) & !H_FILE) | (west_fill(west_shift(b)) & !A_FILE)) & !b
    } else {
        (north_east_fill(north_east_shift(b)) | north_west_fill(north_west_shift(b)) | south_east_fill(
            south_east_shift(b),
        ) | south_west_fill(south_west_shift(b))) & !EDGES & !b
    }
}

/// The blocker set that the bits of `blocker_index` pick among the squares of `occupancy_mask`.
pub fn map_blocker_index_to_occupancy_mask(blocker_index: u16, occupancy_mask: u64) -> (r: u64)
    requires
        occupancy_mask != 0xFFFF_FFFF_FFFF_FFFFu64,
    ensures
        r as nat == pdep_from(blocker_index as nat, occupancy_mask, 0),
{
    deposit_bits(blocker_index as u64, occupancy_mask)
}

/// The table index of the relevant blockers of `occupied_mask` among the squares of `occupancy_mask`.
pub fn get_attack_index(occupied_mask: u64, occupancy_mask: u64) -> (r: u64)
    requires
        occupancy_mask != 0xFFFF_FFFF_FFFF_FFFFu64,
    ensures
        r as nat == pext_from(occupied_mask, occupancy_mask, 0),
{
    extract_bits(occupied_mask, occupancy_mask)
}

/// The number of set bits of `m`.
fn occupancy_count(m: u64) -> (r: u64)
    ensures
        r == popcount_from(m, 0),
        r <= 64,
{
    let mut i: u64 = 64;
    let mut c: u64 = 0;
    while i > 0
        invariant
            i <= 64,
            c == popcount_from(m, i as int),
            c <= 64 - i,
        decreases i,
    {
        i = i - 1;
        if (m >> i) & 1 == 1 {
            c = c + 1;
        }
    }
    c
}

/// The attacks from `from` for every blocker set among the squares of `m`.
fn attack_row(rook: bool, from: u64, m: u64) -> (r: Vec<u64>)
    requires
        m != 0xFFFF_FFFF_FFFF_FFFFu64,
        popcount_from(m, 0) < 64,
    ensures
        attack_row_holds(r@, rook, from, m),
{
    let n = occupancy_count(m);
    proof {
        vstd::bits::lemma_u64_pow2_no_overflow(n as nat);
        vstd::bits::lemma_u64_shl_is_mul(1u64, n);
    }
    let size: u64 = 1u64 << n;
    let mut row: Vec<u64> = Vec::new();
    let mut i: u64 = 0;
    while i < size
        invariant
            size == pow2(popcount_from(m, 0)),
            m != 0xFFFF_FFFF_FFFF_FFFFu64,
            i <= size,
            row@.len() == i,
            forall|j: int|
                0 <= j < i ==> #[trigger] row@[j] == spec_slider_attacks(rook, from, !(pdep_from(j as nat, m, 0) as u64)),
        decreases size - i,
    {
        let blockers = deposit_bits(i, m);
        let attacks = if rook {
            cardinal_ray_attacks(from, !blockers)
        } else {
            diagonal_ray_attacks(from, !blockers)
        };
        row.push(attacks);
        i = i + 1;
    }
    row
}

/// At most `64 - i` bits of a `u64` lie at index `i` or above, fewer when one of them is clear.
proof fn lemma_popcount_bound(m: u64, i: int, s: int)
    requires
        0 <= i <= 64,
    ensures
        popcount_from(m, i) <= 64 - i,
        i <= s < 64 && !bit_at(m, s) ==> popcount_from(m, i) < 64 - i,
    decreases 64 - i,
{
    if i < 64 {
        lemma_popcount_bound(m, i + 1, s);
    }
}

/// An extracted index is below two to the number of bits extracted.
proof fn lemma_pext_bound(x: u64, m: u64, i: int)
    requires
        0 <= i <= 64,
    ensures
        pext_from(x, m, i) < pow2(popcount_from(m, i)),
    decreases 64 - i,
{
    lemma_pow2_pos(popcount_from(m, i));
    if i < 64 {
        lemma_pext_bound(x, m, i + 1);
        lemma_pow2_pos(popcount_from(m, i + 1));
        if bit_at(m, i) {
            lemma_pow2_unfold(popcount_from(m, i));
        }
    }
}

/// The occupancy masks of a square leave the square itself out, so they are not
/// full and hold fewer than 64 squares.
proof fn lemma_mask_excludes_source(rm: u64, bm: u64, from: u64, s: u64)
    requires
        s < 64,
        from == 1u64 << s,
        rm == spec_rook_occupancy_mask(from),
        bm == spec_bishop_occupancy_mask(from),
    ensures
        rm != 0xFFFF_FFFF_FFFF_FFFFu64,
        bm != 0xFFFF_FFFF_FFFF_FFFFu64,
        popcount_from(rm, 0) < 64,
        popcount_from(bm, 0) < 64,
{
    let rr = rm;
    let bb = bm;
    let xr = spec_rook_inner_rays(from);
    let xb = spec_bishop_inner_rays(from);
    assert(!has_bit(rr, s) && !has_bit(bb, s) && has_bit(0xFFFF_FFFF_FFFF_FFFFu64, s)) by (bit_vector)
        requires
            s < 64,
            rr == xr & !(1u64 << s),
            bb == xb & !(1u64 << s),
    ;
    lemma_popcount_bound(rm, 0, s as int);
    lemma_popcount_bound(bm, 0, s as int);
}

/// Rook attacks from a square depend on the occupancy of its relevant squares only.
proof fn lemma_rook_relevance(s: u64, occ: u64)
    by (bit_vector)
    requires
        s < 64,
    ensures
        spec_cardinal_ray_attacks(1u64 << s, !(occ & spec_rook_occupancy_mask(1u64 << s))) == spec_cardinal_ray_attacks(
            1u64 << s,
            !occ,
        ),
{
}

/// Bishop attacks from a square depend on the occupancy of its relevant squares only.
proof fn lemma_bishop_relevance(s: u64, occ: u64)
    by (bit_vector)
    requires
        s < 64,
    ensures
        spec_diagonal_ray_attacks(1u64 << s, !(occ & spec_bishop_occupancy_mask(1u64 << s)))
            == spec_diagonal_ray_attacks(1u64 << s, !occ),
{
}

/// The value of the bits of `y` from index `i` up.
pub open spec fn bits_value(y: u64, i: int) -> nat
    decreases 64 - i,
{
    if i >= 64 {
        0
    } else {
        (if bit_at(y, i) { pow2(i as nat) } else { 0 }) + bits_value(y, i + 1)
    }
}

proof fn lemma_and_bit(x: u64, m: u64, i: u64)
    requires
        i < 64,
    ensures
        has_bit(x & m, i) == (has_bit(x, i) && has_bit(m, i)),
{
    assert(has_bit(x & m, i) == (has_bit(x, i) && has_bit(m, i))) by (bit_vector)
        requires
            i < 64,
    ;
}

/// Depositing what was extracted gives back the bits of `x` under `m`.
proof fn lemma_deposit_extract(x: u64, m: u64, i: int)
    requires
        0 <= i <= 64,
    ensures
        pdep_from(pext_from(x, m, i), m, i) == bits_value(x & m, i),
    decreases 64 - i,
{
    if i < 64 {
        lemma_deposit_extract(x, m, i + 1);
        lemma_and_bit(x, m, i as u64);
        if bit_at(m, i) {
            let b: nat = if bit_at(x, i) { 1 } else { 0 };
            let rest = pext_from(x, m, i + 1);
            let v = b + 2 * rest;
            assert(pext_from(x, m, i) == v);
            assert(v % 2 == b);
            assert(v / 2 == rest);
            assert(pdep_from(v, m, i) == (v % 2) * pow2(i as nat) + pdep_from(v / 2, m, i + 1));
            if bit_at(x, i) {
                assert(v % 2 == 1);
                assert((v % 2) * pow2(i as nat) == pow2(i as nat));
                assert(pdep_from(v, m, i) == pow2(i as nat) + pdep_from(rest, m, i + 1));
            } else {
                assert(v % 2 == 0);
                assert((v % 2) * pow2(i as nat) == 0);
                assert(pdep_from(v, m, i) == pdep_from(rest, m, i + 1));
            }
        }
    }
}

proof fn lemma_shr_split(y: u64, i: u64)
    requires
        i < 63,
    ensures
        y >> i == 2 * (y >> ((i + 1) as u64)) + (if has_bit(y, i) { 1u64 } else { 0u64 }),
        y >> 63u64 == (if has_bit(y, 63u64) { 1u64 } else { 0u64 }),
{
    assert(y >> i == 2 * (y >> ((i + 1) as u64)) + (if has_bit(y, i) { 1u64 } else { 0u64 })) by (bit_vector)
        requires
            i < 63,
    ;
    assert(y >> 63u64 == (if has_bit(y, 63u64) { 1u64 } else { 0u64 })) by (bit_vector);
}

/// The bits of `y` from index `i` up are worth `(y >> i) * 2^i`.
proof fn lemma_bits_value_shifted(y: u64, i: int)
    requires
        0 <= i <= 63,
    ensures
        bits_value(y, i) == (y >> (i as u64)) as nat * pow2(i as nat),
    decreases 63 - i,
{
    let p = pow2(i as nat);
    let b: nat = if bit_at(y, i) { 1 } else { 0 };
    let own: nat = if bit_at(y, i) { p } else { 0 };
    assert(own == b * p);
    if i == 63 {
        lemma_shr_split(y, 0);
        assert(bits_value(y, 64) == 0);
        assert(bits_value(y, 63) == own);
        assert((y >> 63u64) as nat == b);
    } else {
        lemma_bits_value_shifted(y, i + 1);
        lemma_shr_split(y, i as u64);
        lemma_pow2_unfold((i + 1) as nat);
        let hi = (y >> ((i + 1) as u64)) as nat;
        assert(bits_value(y, i + 1) == hi * pow2((i + 1) as nat));
        assert(pow2((i + 1) as nat) == 2 * p);
        assert(bits_value(y, i) == own + bits_value(y, i + 1));
        assert((y >> (i as u64)) as nat == 2 * hi + b);
        assert(hi * (2 * p) + b * p == (2 * hi + b) * p) by (nonlinear_arith);
    }
}

/// The bits of `y` are worth `y`.
proof fn lemma_bits_value(y: u64)
    ensures
        bits_value(y, 0) == y as nat,
{
    lemma_bits_value_shifted(y, 0);
    assert(y >> 0u64 == y) by (bit_vector);
    vstd::arithmetic::power2::lemma2_to64();
    assert(pow2(0) == 1);
    assert(bits_value(y, 0) == (y >> 0u64) as nat * pow2(0));
    let z = (y >> 0u64) as nat;
    assert(z * pow2(0) == z) by (nonlinear_arith)
        requires
            pow2(0) == 1,
    ;
    assert(z == y as nat);
}

/// The magic tables give, for every square and every occupancy, the same
/// attacks as the occluded fills, rook and bishop alike.
pub proof fn lemma_magic_lookup_matches_fill(rook: bool, s: int, occupied: u64)
    requires
        0 <= s < 64,
    ensures
        spec_lookup(rook, bit_mask(s), occupied) == spec_slider_attacks(rook, bit_mask(s), !occupied),
{
    let from = bit_mask(s);
    let m = spec_occupancy_mask(rook, from);
    lemma_deposit_extract(occupied, m, 0);
    lemma_bits_value(occupied & m);
    assert(pdep_from(pext_from(occupied, m, 0), m, 0) as u64 == occupied & m);
    if rook {
        lemma_rook_relevance(s as u64, occupied);
    } else {
        lemma_bishop_relevance(s as u64, occupied);
    }
}

} // verus!
