//! Bitboard primitives: shifts, fills, occluded fills and ray attacks.
use vstd::prelude::*;

use crate::square::masks::{ALL, A_FILE, H_FILE, NOT_A_FILE, NOT_H_FILE};

verus! {

// Bitboard operators: one-step shifts, unbounded fills, blocker-aware
// (occluded) fills and sliding ray attacks, in the eight directions. North is
// towards the eighth rank (offset + 8), east towards the H file (offset + 1).
// Every fill and occluded fill uses the doubling scheme: three steps that shift
// by one, two and four squares, each pre-masked so that no bit crosses a board
// edge, which covers the up to seven squares of any ray.

/// Whether square `s` is set in bitboard `b`.
pub open spec fn has_bit(b: u64, s: u64) -> bool {
    (b >> s) & 1u64 == 1u64
}

/// Moves every set square one step north; squares that would leave the board vanish.
pub open spec fn spec_north_shift(b: u64) -> u64 {
    b << 8u64
}

/// Moves every set square one step south; squares that would leave the board vanish.
pub open spec fn spec_south_shift(b: u64) -> u64 {
    b >> 8u64
}

/// Moves every set square one step east; squares that would leave the board vanish.
pub open spec fn spec_east_shift(b: u64) -> u64 {
    (b << 1u64) & NOT_A_FILE
}

/// Moves every set square one step west; squares that would leave the board vanish.
pub open spec fn spec_west_shift(b: u64) -> u64 {
    (b >> 1u64) & NOT_H_FILE
}

/// Moves every set square one step north east; squares that would leave the board vanish.
pub open spec fn spec_north_east_shift(b: u64) -> u64 {
    (b << 9u64) & NOT_A_FILE
}

/// Moves every set square one step north west; squares that would leave the board vanish.
pub open spec fn spec_north_west_shift(b: u64) -> u64 {
    (b << 7u64) & NOT_H_FILE
}

/// Moves every set square one step south east; squares that would leave the board vanish.
pub open spec fn spec_south_east_shift(b: u64) -> u64 {
    (b >> 7u64) & NOT_A_FILE
}

/// Moves every set square one step south west; squares that would leave the board vanish.
pub open spec fn spec_south_west_shift(b: u64) -> u64 {
    (b >> 9u64) & NOT_H_FILE
}

/// Sets every square north of a set square, on its file.
pub open spec fn spec_north_fill(b: u64) -> u64 {
    let m1 = b | (b << 8u64);
    let m2 = m1 | (m1 << 16u64);
    m2 | (m2 << 32u64)
}

/// Sets every square south of a set square, on its file.
pub open spec fn spec_south_fill(b: u64) -> u64 {
    let m1 = b | (b >> 8u64);
    let m2 = m1 | (m1 >> 16u64);
    m2 | (m2 >> 32u64)
}

/// Sets every square east of a set square, along its ray, ignoring blockers.
pub open spec fn spec_east_fill(b: u64) -> u64 {
    let m1 = b | (NOT_A_FILE & (b << 1u64));
    let m2 = m1 | (0xfcfcfcfcfcfcfcfcu64 & (m1 << 2u64));
    m2 | (0xf0f0f0f0f0f0f0f0u64 & (m2 << 4u64))
}

/// Sets every square west of a set square, along its ray, ignoring blockers.
pub open spec fn spec_west_fill(b: u64) -> u64 {
    let m1 = b | (NOT_H_FILE & (b >> 1u64));
    let m2 = m1 | (0x3f3f3f3f3f3f3f3fu64 & (m1 >> 2u64));
    m2 | (0xf0f0f0f0f0f0f0fu64 & (m2 >> 4u64))
}

/// Sets every square north west of a set square, along its ray, ignoring blockers.
pub open spec fn spec_north_west_fill(b: u64) -> u64 {
    let m1 = b | (NOT_H_FILE & (b << 7u64));
    let m2 = m1 | (0x3f3f3f3f3f3f3f00u64 & (m1 << 14u64));
    m2 | (0xf0f0f0f0f000000u64 & (m2 << 28u64))
}

/// Sets every square north east of a set square, along its ray, ignoring blockers.
pub open spec fn spec_north_east_fill(b: u64) -> u64 {
    let m1 = b | (NOT_A_FILE & (b << 9u64));
    let m2 = m1 | (0xfcfcfcfcfcfcfc00u64 & (m1 << 18u64));
    m2 | (0xf0f0f0f0f0000000u64 & (m2 << 36u64))
}

/// Sets every square south west of a set square, along its ray, ignoring blockers.
pub open spec fn spec_south_west_fill(b: u64) -> u64 {
    let m1 = b | (NOT_H_FILE & (b >> 9u64));
    let m2 = m1 | (0x3f3f3f3f3f3f3fu64 & (m1 >> 18u64));
    m2 | (0xf0f0f0f0fu64 & (m2 >> 36u64))
}

/// Sets every square south east of a set square, along its ray, ignoring blockers.
pub open spec fn spec_south_east_fill(b: u64) -> u64 {
    let m1 = b | (NOT_A_FILE & (b >> 7u64));
    let m2 = m1 | (0xfcfcfcfcfcfcfcu64 & (m1 >> 14u64));
    m2 | (0xf0f0f0f0f0u64 & (m2 >> 28u64))
}

/// Sets every square reached north from a set square of `b` through
/// squares of `empty` only: the fill stops before the first square outside `empty`.
pub open spec fn spec_north_occluded_fill(b: u64, empty: u64) -> u64 {
    let e0 = empty & ALL;
    let m1 = b | (e0 & (b << 8u64));
    let e1 = e0 & (e0 << 8u64);
    let m2 = m1 | (e1 & (m1 << 16u64));
    let e2 = e1 & (e1 << 16u64);
    m2 | (e2 & (m2 << 32u64))
}

/// Sets every square reached south from a set square of `b` through
/// squares of `empty` only: the fill stops before the first square outside `empty`.
pub open spec fn spec_south_occluded_fill(b: u64, empty: u64) -> u64 {
    let e0 = empty & ALL;
    let m1 = b | (e0 & (b >> 8u64));
    let e1 = e0 & (e0 >> 8u64);
    let m2 = m1 | (e1 & (m1 >> 16u64));
    let e2 = e1 & (e1 >> 16u64);
    m2 | (e2 & (m2 >> 32u64))
}

/// Sets every square reached east from a set square of `b` through
/// squares of `empty` only: the fill stops before the first square outside `empty`.
pub open spec fn spec_east_occluded_fill(b: u64, empty: u64) -> u64 {
    let e0 = empty & NOT_A_FILE;
    let m1 = b | (e0 & (b << 1u64));
    let e1 = e0 & (e0 << 1u64);
    let m2 = m1 | (e1 & (m1 << 2u64));
    let e2 = e1 & (e1 << 2u64);
    m2 | (e2 & (m2 << 4u64))
}

/// Sets every square reached west from a set square of `b` through
/// squares of `empty` only: the fill stops before the first square outside `empty`.
pub open spec fn spec_west_occluded_fill(b: u64, empty: u64) -> u64 {
    let e0 = empty & NOT_H_FILE;
    let m1 = b | (e0 & (b >> 1u64));
    let e1 = e0 & (e0 >> 1u64);
    let m2 = m1 | (e1 & (m1 >> 2u64));
    let e2 = e1 & (e1 >> 2u64);
    m2 | (e2 & (m2 >> 4u64))
}

/// Sets every square reached north west from a set square of `b` through
/// squares of `empty` only: the fill stops before the first square outside `empty`.
pub open spec fn spec_north_west_occluded_fill(b: u64, empty: u64) -> u64 {
    let e0 = empty & NOT_H_FILE;
    let m1 = b | (e0 & (b << 7u64));
    let e1 = e0 & (e0 << 7u64);
    let m2 = m1 | (e1 & (m1 << 14u64));
    let e2 = e1 & (e1 << 14u64);
    m2 | (e2 & (m2 << 28u64))
}

/// Sets every square reached north east from a set square of `b` through
/// squares of `empty` only: the fill stops before the first square outside `empty`.
pub open spec fn spec_north_east_occluded_fill(b: u64, empty: u64) -> u64 {
    let e0 = empty & NOT_A_FILE;
    let m1 = b | (e0 & (b << 9u64));
    let e1 = e0 & (e0 << 9u64);
    let m2 = m1 | (e1 & (m1 << 18u64));
    let e2 = e1 & (e1 << 18u64);
    m2 | (e2 & (m2 << 36u64))
}

/// Sets every square reached south west from a set square of `b` through
/// squares of `empty` only: the fill stops before the first square outside `empty`.
pub open spec fn spec_south_west_occluded_fill(b: u64, empty: u64) -> u64 {
    let e0 = empty & NOT_H_FILE;
    let m1 = b | (e0 & (b >> 9u64));
    let e1 = e0 & (e0 >> 9u64);
    let m2 = m1 | (e1 & (m1 >> 18u64));
    let e2 = e1 & (e1 >> 18u64);
    m2 | (e2 & (m2 >> 36u64))
}

/// Sets every square reached south east from a set square of `b` through
/// squares of `empty` only: the fill stops before the first square outside `empty`.
pub open spec fn spec_south_east_occluded_fill(b: u64, empty: u64) -> u64 {
    let e0 = empty & NOT_A_FILE;
    let m1 = b | (e0 & (b >> 7u64));
    let e1 = e0 & (e0 >> 7u64);
    let m2 = m1 | (e1 & (m1 >> 14u64));
    let e2 = e1 & (e1 >> 14u64);
    m2 | (e2 & (m2 >> 28u64))
}

/// The squares that a slider on a set square of `b` attacks north: the empty
/// squares of its ray and the first occupied one.
pub open spec fn spec_north_ray_attacks(b: u64, empty: u64) -> u64 {
    spec_north_shift(spec_north_occluded_fill(b, empty))
}

/// The squares that a slider on a set square of `b` attacks south: the empty
/// squares of its ray and the first occupied one.
pub open spec fn spec_south_ray_attacks(b: u64, empty: u64) -> u64 {
    spec_south_shift(spec_south_occluded_fill(b, empty))
}

/// The squares that a slider on a set square of `b` attacks east: the empty
/// squares of its ray and the first occupied one.
pub open spec fn spec_east_ray_attacks(b: u64, empty: u64) -> u64 {
    spec_east_shift(spec_east_occluded_fill(b, empty))
}

/// The squares that a slider on a set square of `b` attacks west: the empty
/// squares of its ray and the first occupied one.
pub open spec fn spec_west_ray_attacks(b: u64, empty: u64) -> u64 {
    spec_west_shift(spec_west_occluded_fill(b, empty))
}

/// The squares that a slider on a set square of `b` attacks north west: the empty
/// squares of its ray and the first occupied one.
pub open spec fn spec_north_west_ray_attacks(b: u64, empty: u64) -> u64 {
    spec_north_west_shift(spec_north_west_occluded_fill(b, empty))
}

/// The squares that a slider on a set square of `b` attacks north east: the empty
/// squares of its ray and the first occupied one.
pub open spec fn spec_north_east_ray_attacks(b: u64, empty: u64) -> u64 {
    spec_north_east_shift(spec_north_east_occluded_fill(b, empty))
}

/// The squares that a slider on a set square of `b` attacks south west: the empty
/// squares of its ray and the first occupied one.
pub open spec fn spec_south_west_ray_attacks(b: u64, empty: u64) -> u64 {
    spec_south_west_shift(spec_south_west_occluded_fill(b, empty))
}

/// The squares that a slider on a set square of `b` attacks south east: the empty
/// squares of its ray and the first occupied one.
pub open spec fn spec_south_east_ray_attacks(b: u64, empty: u64) -> u64 {
    spec_south_east_shift(spec_south_east_occluded_fill(b, empty))
}

/// Rook-like attacks: the union of the four orthogonal rays.
pub open spec fn spec_cardinal_ray_attacks(b: u64, empty: u64) -> u64 {
    spec_north_ray_attacks(b, empty) | spec_south_ray_attacks(b, empty) | spec_east_ray_attacks(b, empty)
        | spec_west_ray_attacks(b, empty)
}

/// Bishop-like attacks: the union of the four diagonal rays.
pub open spec fn spec_diagonal_ray_attacks(b: u64, empty: u64) -> u64 {
    spec_north_west_ray_attacks(b, empty) | spec_north_east_ray_attacks(b, empty)
        | spec_south_west_ray_attacks(b, empty) | spec_south_east_ray_attacks(b, empty)
}

/// Moves every set square one step north.
pub fn north_shift(b: u64) -> (r: u64)
    ensures
        r == spec_north_shift(b),
        forall|s: u64| s < 64 ==> (#[trigger] has_bit(r, s) <==> spec_north_shift_reach(b, s)),
{
    let r = b << 8;
    proof {
        assert forall|s: u64| s < 64 implies (#[trigger] has_bit(r, s) <==> spec_north_shift_reach(b, s)) by {
            lemma_shift_reach(b, s);
        }
    }
    r
}

/// Moves every set square one step south.
pub fn south_shift(b: u64) -> (r: u64)
    ensures
        r == spec_south_shift(b),
        forall|s: u64| s < 64 ==> (#[trigger] has_bit(r, s) <==> spec_south_shift_reach(b, s)),
{
    let r = b >> 8;
    proof {
        assert forall|s: u64| s < 64 implies (#[trigger] has_bit(r, s) <==> spec_south_shift_reach(b, s)) by {
            lemma_shift_reach(b, s);
        }
    }
    r
}

/// Moves every set square one step east.
pub fn east_shift(b: u64) -> (r: u64)
    ensures
        r == spec_east_shift(b),
        forall|s: u64| s < 64 ==> (#[trigger] has_bit(r, s) <==> (s % 8 != 0 && has_bit(b, (s - 1) as u64))),
        r & A_FILE == 0,
{
    let r = (b << 1) & NOT_A_FILE;
    proof {
        assert forall|s: u64| s < 64 implies (#[trigger] has_bit(r, s) <==> (s % 8 != 0 && has_bit(b, (s - 1) as u64))) by {
            lemma_east_shift_bit(b, s);
        }
        lemma_east_shift_bit(b, 0);
    }
    r
}

/// Moves every set square one step west.
pub fn west_shift(b: u64) -> (r: u64)
    ensures
        r == spec_west_shift(b),
        forall|s: u64| s < 64 ==> (#[trigger] has_bit(r, s) <==> (s % 8 != 7 && has_bit(b, (s + 1) as u64))),
        r & H_FILE == 0,
{
    let r = (b >> 1) & NOT_H_FILE;
    proof {
        assert forall|s: u64| s < 64 implies (#[trigger] has_bit(r, s) <==> (s % 8 != 7 && has_bit(b, (s + 1) as u64))) by {
            lemma_west_shift_bit(b, s);
        }
        lemma_west_shift_bit(b, 0);
    }
    r
}

/// Moves every set square one step north east.
pub fn north_east_shift(b: u64) -> (r: u64)
    ensures
        r == spec_north_east_shift(b),
        forall|s: u64| s < 64 ==> (#[trigger] has_bit(r, s) <==> spec_north_east_shift_reach(b, s)),
{
    let r = (b << 9) & NOT_A_FILE;
    proof {
        assert forall|s: u64| s < 64 implies (#[trigger] has_bit(r, s) <==> spec_north_east_shift_reach(b, s)) by {
            lemma_shift_reach(b, s);
        }
    }
    r
}

/// Moves every set square one step north west.
pub fn north_west_shift(b: u64) -> (r: u64)
    ensures
        r == spec_north_west_shift(b),
        forall|s: u64| s < 64 ==> (#[trigger] has_bit(r, s) <==> spec_north_west_shift_reach(b, s)),
{
    let r = (b << 7) & NOT_H_FILE;
    proof {
        assert forall|s: u64| s < 64 implies (#[trigger] has_bit(r, s) <==> spec_north_west_shift_reach(b, s)) by {
            lemma_shift_reach(b, s);
        }
    }
    r
}

/// Moves every set square one step south east.
pub fn south_east_shift(b: u64) -> (r: u64)
    ensures
        r == spec_south_east_shift(b),
        forall|s: u64| s < 64 ==> (#[trigger] has_bit(r, s) <==> spec_south_east_shift_reach(b, s)),
{
    let r = (b >> 7) & NOT_A_FILE;
    proof {
        assert forall|s: u64| s < 64 implies (#[trigger] has_bit(r, s) <==> spec_south_east_shift_reach(b, s)) by {
            lemma_shift_reach(b, s);
        }
    }
    r
}

/// Moves every set square one step south west.
pub fn south_west_shift(b: u64) -> (r: u64)
    ensures
        r == spec_south_west_shift(b),
        forall|s: u64| s < 64 ==> (#[trigger] has_bit(r, s) <==> spec_south_west_shift_reach(b, s)),
{
    let r = (b >> 9) & NOT_H_FILE;
    proof {
        assert forall|s: u64| s < 64 implies (#[trigger] has_bit(r, s) <==> spec_south_west_shift_reach(b, s)) by {
            lemma_shift_reach(b, s);
        }
    }
    r
}

/// A set square of an east shift came from the square west of it, never across the board edge.
proof fn lemma_east_shift_bit(b: u64, s: u64)
    by (bit_vector)
    requires
        s < 64,
    ensures
        has_bit((b << 1u64) & 0xFEFEFEFEFEFEFEFEu64, s) == (s % 8 != 0 && has_bit(b, (s - 1) as u64)),
        (b << 1u64) & 0xFEFEFEFEFEFEFEFEu64 & 0x0101010101010101u64 == 0,
{
}

/// A set square of a west shift came from the square east of it, never across the board edge.
proof fn lemma_west_shift_bit(b: u64, s: u64)
    by (bit_vector)
    requires
        s < 64,
    ensures
        has_bit((b >> 1u64) & 0x7F7F7F7F7F7F7F7Fu64, s) == (s % 8 != 7 && has_bit(b, (s + 1) as u64)),
        (b >> 1u64) & 0x7F7F7F7F7F7F7F7Fu64 & 0x8080808080808080u64 == 0,
{
}

/// Sets every square north of a set square.
pub fn north_fill(b: u64) -> (r: u64)
    ensures
        r == spec_north_fill(b),
        forall|s: u64| s < 64 ==> (#[trigger] has_bit(r, s) <==> spec_north_fill_reach(b, s)),
{
    proof {
        lemma_fill_is_unoccluded(b);
        assert forall|s: u64| s < 64 implies (#[trigger] has_bit(spec_north_fill(b), s) <==> spec_north_fill_reach(
            b,
            s,
        )) by {
            lemma_north_occluded_reach(b, ALL, s);
        }
    }
    let mut m = b;
    m = m | (m << 8);
    m = m | (m << 16);
    m = m | (m << 32);
    m
}

/// Sets every square south of a set square.
pub fn south_fill(b: u64) -> (r: u64)
    ensures
        r == spec_south_fill(b),
        forall|s: u64| s < 64 ==> (#[trigger] has_bit(r, s) <==> spec_south_fill_reach(b, s)),
{
    proof {
        lemma_fill_is_unoccluded(b);
        assert forall|s: u64| s < 64 implies (#[trigger] has_bit(spec_south_fill(b), s) <==> spec_south_fill_reach(
            b,
            s,
        )) by {
            lemma_south_occluded_reach(b, ALL, s);
        }
    }
    let mut m = b;
    m = m | (m >> 8);
    m = m | (m >> 16);
    m = m | (m >> 32);
    m
}

/// Sets every square east of a set square, ignoring blockers.
pub fn east_fill(b: u64) -> (r: u64)
    ensures
        r == spec_east_fill(b),
        forall|s: u64| s < 64 ==> (#[trigger] has_bit(r, s) <==> spec_east_fill_reach(b, s)),
{
    proof {
        lemma_fill_is_unoccluded(b);
        assert forall|s: u64| s < 64 implies (#[trigger] has_bit(spec_east_fill(b), s) <==> spec_east_fill_reach(
            b,
            s,
        )) by {
            lemma_east_occluded_reach(b, ALL, s);
        }
    }
    let mut m = b;
    m = m | (NOT_A_FILE & (m << 1));
    m = m | (0xfcfcfcfcfcfcfcfc & (m << 2));
    m = m | (0xf0f0f0f0f0f0f0f0 & (m << 4));
    m
}

/// Sets every square west of a set square, ignoring blockers.
pub fn west_fill(b: u64) -> (r: u64)
    ensures
        r == spec_west_fill(b),
        forall|s: u64| s < 64 ==> (#[trigger] has_bit(r, s) <==> spec_west_fill_reach(b, s)),
{
    proof {
        lemma_fill_is_unoccluded(b);
        assert forall|s: u64| s < 64 implies (#[trigger] has_bit(spec_west_fill(b), s) <==> spec_west_fill_reach(
            b,
            s,
        )) by {
            lemma_west_occluded_reach(b, ALL, s);
        }
    }
    let mut m = b;
    m = m | (NOT_H_FILE & (m >> 1));
    m = m | (0x3f3f3f3f3f3f3f3f & (m >> 2));
    m = m | (0xf0f0f0f0f0f0f0f & (m >> 4));
    m
}

/// Sets every square north west of a set square, ignoring blockers.
pub fn north_west_fill(b: u64) -> (r: u64)
    ensures
        r == spec_north_west_fill(b),
        forall|s: u64| s < 64 ==> (#[trigger] has_bit(r, s) <==> spec_north_west_fill_reach(b, s)),
{
    proof {
        lemma_fill_is_unoccluded(b);
        assert forall|s: u64| s < 64 implies (#[trigger] has_bit(spec_north_west_fill(b), s) <==> spec_north_west_fill_reach(
            b,
            s,
        )) by {
            lemma_north_west_occluded_reach(b, ALL, s);
        }
    }
    let mut m = b;
    m = m | (NOT_H_FILE & (m << 7));
    m = m | (0x3f3f3f3f3f3f3f00 & (m << 14));
    m = m | (0xf0f0f0f0f000000 & (m << 28));
    m
}

/// Sets every square north east of a set square, ignoring blockers.
pub fn north_east_fill(b: u64) -> (r: u64)
    ensures
        r == spec_north_east_fill(b),
        forall|s: u64| s < 64 ==> (#[trigger] has_bit(r, s) <==> spec_north_east_fill_reach(b, s)),
{
    proof {
        lemma_fill_is_unoccluded(b);
        assert forall|s: u64| s < 64 implies (#[trigger] has_bit(spec_north_east_fill(b), s) <==> spec_north_east_fill_reach(
            b,
            s,
        )) by {
            lemma_north_east_occluded_reach(b, ALL, s);
        }
    }
    let mut m = b;
    m = m | (NOT_A_FILE & (m << 9));
    m = m | (0xfcfcfcfcfcfcfc00 & (m << 18));
    m = m | (0xf0f0f0f0f0000000 & (m << 36));
    m
}

/// Sets every square south west of a set square, ignoring blockers.
pub fn south_west_fill(b: u64) -> (r: u64)
    ensures
        r == spec_south_west_fill(b),
        forall|s: u64| s < 64 ==> (#[trigger] has_bit(r, s) <==> spec_south_west_fill_reach(b, s)),
{
    proof {
        lemma_fill_is_unoccluded(b);
        assert forall|s: u64| s < 64 implies (#[trigger] has_bit(spec_south_west_fill(b), s) <==> spec_south_west_fill_reach(
            b,
            s,
        )) by {
            lemma_south_west_occluded_reach(b, ALL, s);
        }
    }
    let mut m = b;
    m = m | (NOT_H_FILE & (m >> 9));
    m = m | (0x3f3f3f3f3f3f3f & (m >> 18));
    m = m | (0xf0f0f0f0f & (m >> 36));
    m
}

/// Sets every square south east of a set square, ignoring blockers.
pub fn south_east_fill(b: u64) -> (r: u64)
    ensures
        r == spec_south_east_fill(b),
        forall|s: u64| s < 64 ==> (#[trigger] has_bit(r, s) <==> spec_south_east_fill_reach(b, s)),
{
    proof {
        lemma_fill_is_unoccluded(b);
        assert forall|s: u64| s < 64 implies (#[trigger] has_bit(spec_south_east_fill(b), s) <==> spec_south_east_fill_reach(
            b,
            s,
        )) by {
            lemma_south_east_occluded_reach(b, ALL, s);
        }
    }
    let mut m = b;
    m = m | (NOT_A_FILE & (m >> 7));
    m = m | (0xfcfcfcfcfcfcfc & (m >> 14));
    m = m | (0xf0f0f0f0f0 & (m >> 28));
    m
}

/// Sets every square of the files of the set squares.
pub fn file_fill(b: u64) -> (r: u64)
    ensures
        r == spec_south_fill(b) | spec_north_fill(b),
{
    south_fill(b) | north_fill(b)
}

/// Sets every square of the ranks of the set squares.
pub fn rank_fill(b: u64) -> (r: u64)
    ensures
        r == spec_east_fill(b) | spec_west_fill(b),
{
    east_fill(b) | west_fill(b)
}

/// Sets every square on a rank or file through a set square.
pub fn cardinal_fill(b: u64) -> (r: u64)
    ensures
        r == spec_north_fill(b) | spec_south_fill(b) | spec_east_fill(b) | spec_west_fill(b),
{
    north_fill(b) | south_fill(b) | east_fill(b) | west_fill(b)
}

/// Sets every square on a diagonal through a set square.
pub fn diagonal_fill(b: u64) -> (r: u64)
    ensures
        r == spec_north_east_fill(b) | spec_north_west_fill(b) | spec_south_east_fill(b)
            | spec_south_west_fill(b),
{
    north_east_fill(b) | north_west_fill(b) | south_east_fill(b) | south_west_fill(b)
}

/// Fills north from the set squares of `b` through the squares of `empty`.
pub fn north_occluded_fill(b: u64, empty: u64) -> (r: u64)
    ensures
        r == spec_north_occluded_fill(b, empty),
        forall|s: u64| s < 64 ==> (#[trigger] has_bit(r, s) <==> spec_north_occluded_reach(b, empty, s)),
{
    proof {
        assert forall|s: u64| s < 64 implies (#[trigger] has_bit(spec_north_occluded_fill(b, empty), s)
            <==> spec_north_occluded_reach(b, empty, s)) by {
            lemma_north_occluded_reach(b, empty, s);
        }
    }
    let mut m = b;
    let mut e = empty & ALL;
    m = m | (e & (m << 8));
    e = e & (e << 8);
    m = m | (e & (m << 16));
    e = e & (e << 16);
    m = m | (e & (m << 32));
    m
}

/// Fills south from the set squares of `b` through the squares of `empty`.
pub fn south_occluded_fill(b: u64, empty: u64) -> (r: u64)
    ensures
        r == spec_south_occluded_fill(b, empty),
        forall|s: u64| s < 64 ==> (#[trigger] has_bit(r, s) <==> spec_south_occluded_reach(b, empty, s)),
{
    proof {
        assert forall|s: u64| s < 64 implies (#[trigger] has_bit(spec_south_occluded_fill(b, empty), s)
            <==> spec_south_occluded_reach(b, empty, s)) by {
            lemma_south_occluded_reach(b, empty, s);
        }
    }
    let mut m = b;
    let mut e = empty & ALL;
    m = m | (e & (m >> 8));
    e = e & (e >> 8);
    m = m | (e & (m >> 16));
    e = e & (e >> 16);
    m = m | (e & (m >> 32));
    m
}

/// Fills east from the set squares of `b` through the squares of `empty`.
pub fn east_occluded_fill(b: u64, empty: u64) -> (r: u64)
    ensures
        r == spec_east_occluded_fill(b, empty),
        forall|s: u64| s < 64 ==> (#[trigger] has_bit(r, s) <==> spec_east_occluded_reach(b, empty, s)),
{
    proof {
        assert forall|s: u64| s < 64 implies (#[trigger] has_bit(spec_east_occluded_fill(b, empty), s)
            <==> spec_east_occluded_reach(b, empty, s)) by {
            lemma_east_occluded_reach(b, empty, s);
        }
    }
    let mut m = b;
    let mut e = empty & NOT_A_FILE;
    m = m | (e & (m << 1));
    e = e & (e << 1);
    m = m | (e & (m << 2));
    e = e & (e << 2);
    m = m | (e & (m << 4));
    m
}

/// Fills west from the set squares of `b` through the squares of `empty`.
pub fn west_occluded_fill(b: u64, empty: u64) -> (r: u64)
    ensures
        r == spec_west_occluded_fill(b, empty),
        forall|s: u64| s < 64 ==> (#[trigger] has_bit(r, s) <==> spec_west_occluded_reach(b, empty, s)),
{
    proof {
        assert forall|s: u64| s < 64 implies (#[trigger] has_bit(spec_west_occluded_fill(b, empty), s)
            <==> spec_west_occluded_reach(b, empty, s)) by {
            lemma_west_occluded_reach(b, empty, s);
        }
    }
    let mut m = b;
    let mut e = empty & NOT_H_FILE;
    m = m | (e & (m >> 1));
    e = e & (e >> 1);
    m = m | (e & (m >> 2));
    e = e & (e >> 2);
    m = m | (e & (m >> 4));
    m
}

/// Fills north west from the set squares of `b` through the squares of `empty`.
pub fn north_west_occluded_fill(b: u64, empty: u64) -> (r: u64)
    ensures
        r == spec_north_west_occluded_fill(b, empty),
        forall|s: u64| s < 64 ==> (#[trigger] has_bit(r, s) <==> spec_north_west_occluded_reach(b, empty, s)),
{
    proof {
        assert forall|s: u64| s < 64 implies (#[trigger] has_bit(spec_north_west_occluded_fill(b, empty), s)
            <==> spec_north_west_occluded_reach(b, empty, s)) by {
            lemma_north_west_occluded_reach(b, empty, s);
        }
    }
    let mut m = b;
    let mut e = empty & NOT_H_FILE;
    m = m | (e & (m << 7));
    e = e & (e << 7);
    m = m | (e & (m << 14));
    e = e & (e << 14);
    m = m | (e & (m << 28));
    m
}

/// Fills north east from the set squares of `b` through the squares of `empty`.
pub fn north_east_occluded_fill(b: u64, empty: u64) -> (r: u64)
    ensures
        r == spec_north_east_occluded_fill(b, empty),
        forall|s: u64| s < 64 ==> (#[trigger] has_bit(r, s) <==> spec_north_east_occluded_reach(b, empty, s)),
{
    proof {
        assert forall|s: u64| s < 64 implies (#[trigger] has_bit(spec_north_east_occluded_fill(b, empty), s)
            <==> spec_north_east_occluded_reach(b, empty, s)) by {
            lemma_north_east_occluded_reach(b, empty, s);
        }
    }
    let mut m = b;
    let mut e = empty & NOT_A_FILE;
    m = m | (e & (m << 9));
    e = e & (e << 9);
    m = m | (e & (m << 18));
    e = e & (e << 18);
    m = m | (e & (m << 36));
    m
}

/// Fills south west from the set squares of `b` through the squares of `empty`.
pub fn south_west_occluded_fill(b: u64, empty: u64) -> (r: u64)
    ensures
        r == spec_south_west_occluded_fill(b, empty),
        forall|s: u64| s < 64 ==> (#[trigger] has_bit(r, s) <==> spec_south_west_occluded_reach(b, empty, s)),
{
    proof {
        assert forall|s: u64| s < 64 implies (#[trigger] has_bit(spec_south_west_occluded_fill(b, empty), s)
            <==> spec_south_west_occluded_reach(b, empty, s)) by {
            lemma_south_west_occluded_reach(b, empty, s);
        }
    }
    let mut m = b;
    let mut e = empty & NOT_H_FILE;
    m = m | (e & (m >> 9));
    e = e & (e >> 9);
    m = m | (e & (m >> 18));
    e = e & (e >> 18);
    m = m | (e & (m >> 36));
    m
}

/// Fills south east from the set squares of `b` through the squares of `empty`.
pub fn south_east_occluded_fill(b: u64, empty: u64) -> (r: u64)
    ensures
        r == spec_south_east_occluded_fill(b, empty),
        forall|s: u64| s < 64 ==> (#[trigger] has_bit(r, s) <==> spec_south_east_occluded_reach(b, empty, s)),
{
    proof {
        assert forall|s: u64| s < 64 implies (#[trigger] has_bit(spec_south_east_occluded_fill(b, empty), s)
            <==> spec_south_east_occluded_reach(b, empty, s)) by {
            lemma_south_east_occluded_reach(b, empty, s);
        }
    }
    let mut m = b;
    let mut e = empty & NOT_A_FILE;
    m = m | (e & (m >> 7));
    e = e & (e >> 7);
    m = m | (e & (m >> 14));
    e = e & (e >> 14);
    m = m | (e & (m >> 28));
    m
}

/// The squares that sliders on `b` attack north, with `empty` the empty squares.
pub fn north_ray_attacks(b: u64, empty: u64) -> (r: u64)
    ensures
        r == spec_north_ray_attacks(b, empty),
        forall|s: u64| s < 64 ==> (#[trigger] has_bit(r, s) <==> spec_north_ray_reach(b, empty, s)),
{
    let r = north_shift(north_occluded_fill(b, empty));
    proof {
        assert forall|s: u64| s < 64 implies (#[trigger] has_bit(r, s) <==> spec_north_ray_reach(b, empty, s)) by {
            lemma_north_ray_reach(b, empty, s);
        }
    }
    r
}

/// The squares that sliders on `b` attack south, with `empty` the empty squares.
pub fn south_ray_attacks(b: u64, empty: u64) -> (r: u64)
    ensures
        r == spec_south_ray_attacks(b, empty),
        forall|s: u64| s < 64 ==> (#[trigger] has_bit(r, s) <==> spec_south_ray_reach(b, empty, s)),
{
    let r = south_shift(south_occluded_fill(b, empty));
    proof {
        assert forall|s: u64| s < 64 implies (#[trigger] has_bit(r, s) <==> spec_south_ray_reach(b, empty, s)) by {
            lemma_south_ray_reach(b, empty, s);
        }
    }
    r
}

/// The squares that sliders on `b` attack east, with `empty` the empty squares.
pub fn east_ray_attacks(b: u64, empty: u64) -> (r: u64)
    ensures
        r == spec_east_ray_attacks(b, empty),
        forall|s: u64| s < 64 ==> (#[trigger] has_bit(r, s) <==> spec_east_ray_reach(b, empty, s)),
{
    let r = east_shift(east_occluded_fill(b, empty));
    proof {
        assert forall|s: u64| s < 64 implies (#[trigger] has_bit(r, s) <==> spec_east_ray_reach(b, empty, s)) by {
            lemma_east_ray_reach(b, empty, s);
        }
    }
    r
}

/// The squares that sliders on `b` attack west, with `empty` the empty squares.
pub fn west_ray_attacks(b: u64, empty: u64) -> (r: u64)
    ensures
        r == spec_west_ray_attacks(b, empty),
        forall|s: u64| s < 64 ==> (#[trigger] has_bit(r, s) <==> spec_west_ray_reach(b, empty, s)),
{
    let r = west_shift(west_occluded_fill(b, empty));
    proof {
        assert forall|s: u64| s < 64 implies (#[trigger] has_bit(r, s) <==> spec_west_ray_reach(b, empty, s)) by {
            lemma_west_ray_reach(b, empty, s);
        }
    }
    r
}

/// The squares that sliders on `b` attack north west, with `empty` the empty squares.
pub fn north_west_ray_attacks(b: u64, empty: u64) -> (r: u64)
    ensures
        r == spec_north_west_ray_attacks(b, empty),
        forall|s: u64| s < 64 ==> (#[trigger] has_bit(r, s) <==> spec_north_west_ray_reach(b, empty, s)),
{
    let r = north_west_shift(north_west_occluded_fill(b, empty));
    proof {
        assert forall|s: u64| s < 64 implies (#[trigger] has_bit(r, s) <==> spec_north_west_ray_reach(b, empty, s)) by {
            lemma_north_west_ray_reach(b, empty, s);
        }
    }
    r
}

/// The squares that sliders on `b` attack north east, with `empty` the empty squares.
pub fn north_east_ray_attacks(b: u64, empty: u64) -> (r: u64)
    ensures
        r == spec_north_east_ray_attacks(b, empty),
        forall|s: u64| s < 64 ==> (#[trigger] has_bit(r, s) <==> spec_north_east_ray_reach(b, empty, s)),
{
    let r = north_east_shift(north_east_occluded_fill(b, empty));
    proof {
        assert forall|s: u64| s < 64 implies (#[trigger] has_bit(r, s) <==> spec_north_east_ray_reach(b, empty, s)) by {
            lemma_north_east_ray_reach(b, empty, s);
        }
    }
    r
}

/// The squares that sliders on `b` attack south west, with `empty` the empty squares.
pub fn south_west_ray_attacks(b: u64, empty: u64) -> (r: u64)
    ensures
        r == spec_south_west_ray_attacks(b, empty),
        forall|s: u64| s < 64 ==> (#[trigger] has_bit(r, s) <==> spec_south_west_ray_reach(b, empty, s)),
{
    let r = south_west_shift(south_west_occluded_fill(b, empty));
    proof {
        assert forall|s: u64| s < 64 implies (#[trigger] has_bit(r, s) <==> spec_south_west_ray_reach(b, empty, s)) by {
            lemma_south_west_ray_reach(b, empty, s);
        }
    }
    r
}

/// The squares that sliders on `b` attack south east, with `empty` the empty squares.
pub fn south_east_ray_attacks(b: u64, empty: u64) -> (r: u64)
    ensures
        r == spec_south_east_ray_attacks(b, empty),
        forall|s: u64| s < 64 ==> (#[trigger] has_bit(r, s) <==> spec_south_east_ray_reach(b, empty, s)),
{
    let r = south_east_shift(south_east_occluded_fill(b, empty));
    proof {
        assert forall|s: u64| s < 64 implies (#[trigger] has_bit(r, s) <==> spec_south_east_ray_reach(b, empty, s)) by {
            lemma_south_east_ray_reach(b, empty, s);
        }
    }
    r
}

/// Rook-like attacks from the set squares of `b`, with `empty` the empty squares.
pub fn cardinal_ray_attacks(b: u64, empty: u64) -> (r: u64)
    ensures
        r == spec_cardinal_ray_attacks(b, empty),
{
    north_ray_attacks(b, empty) | south_ray_attacks(b, empty) | east_ray_attacks(b, empty)
        | west_ray_attacks(b, empty)
}

/// Bishop-like attacks from the set squares of `b`, with `empty` the empty squares.
pub fn diagonal_ray_attacks(b: u64, empty: u64) -> (r: u64)
    ensures
        r == spec_diagonal_ray_attacks(b, empty),
{
    north_west_ray_attacks(b, empty) | north_east_ray_attacks(b, empty) | south_west_ray_attacks(b, empty)
        | south_east_ray_attacks(b, empty)
}

/// An east shift never wraps onto the A file and a west shift never wraps onto
/// the H file: each set square of the result comes from its neighbour on the
/// same rank. In particular the H file shifted east, and the A file shifted
/// west, are empty.
pub proof fn lemma_shifts_never_wrap(b: u64)
    ensures
        spec_east_shift(b) & A_FILE == 0,
        spec_west_shift(b) & H_FILE == 0,
        forall|s: u64| s < 64 ==> (#[trigger] has_bit(spec_east_shift(b), s) <==> (s % 8 != 0 && has_bit(b, (s - 1) as u64))),
        forall|s: u64| s < 64 ==> (#[trigger] has_bit(spec_west_shift(b), s) <==> (s % 8 != 7 && has_bit(b, (s + 1) as u64))),
        spec_east_shift(H_FILE) == 0,
        spec_west_shift(A_FILE) == 0,
{
    assert forall|s: u64| s < 64 implies (#[trigger] has_bit(spec_east_shift(b), s) <==> (s % 8 != 0 && has_bit(b, (s - 1) as u64))) by {
        lemma_east_shift_bit(b, s);
    }
    assert forall|s: u64| s < 64 implies (#[trigger] has_bit(spec_west_shift(b), s) <==> (s % 8 != 7 && has_bit(b, (s + 1) as u64))) by {
        lemma_west_shift_bit(b, s);
    }
    lemma_east_shift_bit(b, 0);
    lemma_west_shift_bit(b, 0);
    assert(((0x8080808080808080u64 << 1u64) & 0xFEFEFEFEFEFEFEFEu64) == 0) by (bit_vector);
    assert(((0x0101010101010101u64 >> 1u64) & 0x7F7F7F7F7F7F7F7Fu64) == 0) by (bit_vector);
}

/// Whether a slider on `b` attacks square `s` northwards, with `e` the empty
/// squares: some slider stands `k` steps behind `s` on the board (1 <= k <= 7), and
/// the squares strictly between them are empty.
pub open spec fn spec_north_ray_reach(b: u64, e: u64, s: u64) -> bool {
    ((s / 8 >= 1) && has_bit(b, (s - 8) as u64))
        || ((s / 8 >= 2) && has_bit(b, (s - 16) as u64) && has_bit(e, (s - 8) as u64))
        || ((s / 8 >= 3) && has_bit(b, (s - 24) as u64) && has_bit(e, (s - 8) as u64) && has_bit(e, (s - 16) as u64))
        || ((s / 8 >= 4) && has_bit(b, (s - 32) as u64) && has_bit(e, (s - 8) as u64) && has_bit(e, (s - 16) as u64) && has_bit(e, (s - 24) as u64))
        || ((s / 8 >= 5) && has_bit(b, (s - 40) as u64) && has_bit(e, (s - 8) as u64) && has_bit(e, (s - 16) as u64) && has_bit(e, (s - 24) as u64) && has_bit(e, (s - 32) as u64))
        || ((s / 8 >= 6) && has_bit(b, (s - 48) as u64) && has_bit(e, (s - 8) as u64) && has_bit(e, (s - 16) as u64) && has_bit(e, (s - 24) as u64) && has_bit(e, (s - 32) as u64) && has_bit(e, (s - 40) as u64))
        || ((s / 8 >= 7) && has_bit(b, (s - 56) as u64) && has_bit(e, (s - 8) as u64) && has_bit(e, (s - 16) as u64) && has_bit(e, (s - 24) as u64) && has_bit(e, (s - 32) as u64) && has_bit(e, (s - 40) as u64) && has_bit(e, (s - 48) as u64))
}

proof fn lemma_north_ray_reach(b: u64, e: u64, s: u64)
    by (bit_vector)
    requires
        s < 64,
    ensures
        has_bit(spec_north_ray_attacks(b, e), s) == spec_north_ray_reach(b, e, s),
{
}

/// Whether a slider on `b` attacks square `s` southwards, with `e` the empty
/// squares: some slider stands `k` steps behind `s` on the board (1 <= k <= 7), and
/// the squares strictly between them are empty.
pub open spec fn spec_south_ray_reach(b: u64, e: u64, s: u64) -> bool {
    ((s / 8 + 1 <= 7) && has_bit(b, (s + 8) as u64))
        || ((s / 8 + 2 <= 7) && has_bit(b, (s + 16) as u64) && has_bit(e, (s + 8) as u64))
        || ((s / 8 + 3 <= 7) && has_bit(b, (s + 24) as u64) && has_bit(e, (s + 8) as u64) && has_bit(e, (s + 16) as u64))
        || ((s / 8 + 4 <= 7) && has_bit(b, (s + 32) as u64) && has_bit(e, (s + 8) as u64) && has_bit(e, (s + 16) as u64) && has_bit(e, (s + 24) as u64))
        || ((s / 8 + 5 <= 7) && has_bit(b, (s + 40) as u64) && has_bit(e, (s + 8) as u64) && has_bit(e, (s + 16) as u64) && has_bit(e, (s + 24) as u64) && has_bit(e, (s + 32) as u64))
        || ((s / 8 + 6 <= 7) && has_bit(b, (s + 48) as u64) && has_bit(e, (s + 8) as u64) && has_bit(e, (s + 16) as u64) && has_bit(e, (s + 24) as u64) && has_bit(e, (s + 32) as u64) && has_bit(e, (s + 40) as u64))
        || ((s / 8 + 7 <= 7) && has_bit(b, (s + 56) as u64) && has_bit(e, (s + 8) as u64) && has_bit(e, (s + 16) as u64) && has_bit(e, (s + 24) as u64) && has_bit(e, (s + 32) as u64) && has_bit(e, (s + 40) as u64) && has_bit(e, (s + 48) as u64))
}

proof fn lemma_south_ray_reach(b: u64, e: u64, s: u64)
    by (bit_vector)
    requires
        s < 64,
    ensures
        has_bit(spec_south_ray_attacks(b, e), s) == spec_south_ray_reach(b, e, s),
{
}

/// Whether a slider on `b` attacks square `s` eastwards, with `e` the empty
/// squares: some slider stands `k` steps behind `s` on the board (1 <= k <= 7), and
/// the squares strictly between them are empty.
pub open spec fn spec_east_ray_reach(b: u64, e: u64, s: u64) -> bool {
    ((s % 8 >= 1) && has_bit(b, (s - 1) as u64))
        || ((s % 8 >= 2) && has_bit(b, (s - 2) as u64) && has_bit(e, (s - 1) as u64))
        || ((s % 8 >= 3) && has_bit(b, (s - 3) as u64) && has_bit(e, (s - 1) as u64) && has_bit(e, (s - 2) as u64))
        || ((s % 8 >= 4) && has_bit(b, (s - 4) as u64) && has_bit(e, (s - 1) as u64) && has_bit(e, (s - 2) as u64) && has_bit(e, (s - 3) as u64))
        || ((s % 8 >= 5) && has_bit(b, (s - 5) as u64) && has_bit(e, (s - 1) as u64) && has_bit(e, (s - 2) as u64) && has_bit(e, (s - 3) as u64) && has_bit(e, (s - 4) as u64))
        || ((s % 8 >= 6) && has_bit(b, (s - 6) as u64) && has_bit(e, (s - 1) as u64) && has_bit(e, (s - 2) as u64) && has_bit(e, (s - 3) as u64) && has_bit(e, (s - 4) as u64) && has_bit(e, (s - 5) as u64))
        || ((s % 8 >= 7) && has_bit(b, (s - 7) as u64) && has_bit(e, (s - 1) as u64) && has_bit(e, (s - 2) as u64) && has_bit(e, (s - 3) as u64) && has_bit(e, (s - 4) as u64) && has_bit(e, (s - 5) as u64) && has_bit(e, (s - 6) as u64))
}

proof fn lemma_east_ray_reach(b: u64, e: u64, s: u64)
    by (bit_vector)
    requires
        s < 64,
    ensures
        has_bit(spec_east_ray_attacks(b, e), s) == spec_east_ray_reach(b, e, s),
{
}

/// Whether a slider on `b` attacks square `s` westwards, with `e` the empty
/// squares: some slider stands `k` steps behind `s` on the board (1 <= k <= 7), and
/// the squares strictly between them are empty.
pub open spec fn spec_west_ray_reach(b: u64, e: u64, s: u64) -> bool {
    ((s % 8 + 1 <= 7) && has_bit(b, (s + 1) as u64))
        || ((s % 8 + 2 <= 7) && has_bit(b, (s + 2) as u64) && has_bit(e, (s + 1) as u64))
        || ((s % 8 + 3 <= 7) && has_bit(b, (s + 3) as u64) && has_bit(e, (s + 1) as u64) && has_bit(e, (s + 2) as u64))
        || ((s % 8 + 4 <= 7) && has_bit(b, (s + 4) as u64) && has_bit(e, (s + 1) as u64) && has_bit(e, (s + 2) as u64) && has_bit(e, (s + 3) as u64))
        || ((s % 8 + 5 <= 7) && has_bit(b, (s + 5) as u64) && has_bit(e, (s + 1) as u64) && has_bit(e, (s + 2) as u64) && has_bit(e, (s + 3) as u64) && has_bit(e, (s + 4) as u64))
        || ((s % 8 + 6 <= 7) && has_bit(b, (s + 6) as u64) && has_bit(e, (s + 1) as u64) && has_bit(e, (s + 2) as u64) && has_bit(e, (s + 3) as u64) && has_bit(e, (s + 4) as u64) && has_bit(e, (s + 5) as u64))
        || ((s % 8 + 7 <= 7) && has_bit(b, (s + 7) as u64) && has_bit(e, (s + 1) as u64) && has_bit(e, (s + 2) as u64) && has_bit(e, (s + 3) as u64) && has_bit(e, (s + 4) as u64) && has_bit(e, (s + 5) as u64) && has_bit(e, (s + 6) as u64))
}

proof fn lemma_west_ray_reach(b: u64, e: u64, s: u64)
    by (bit_vector)
    requires
        s < 64,
    ensures
        has_bit(spec_west_ray_attacks(b, e), s) == spec_west_ray_reach(b, e, s),
{
}

/// Whether a slider on `b` attacks square `s` north eastwards, with `e` the empty
/// squares: some slider stands `k` steps behind `s` on the board (1 <= k <= 7), and
/// the squares strictly between them are empty.
pub open spec fn spec_north_east_ray_reach(b: u64, e: u64, s: u64) -> bool {
    ((s % 8 >= 1 && s / 8 >= 1) && has_bit(b, (s - 9) as u64))
        || ((s % 8 >= 2 && s / 8 >= 2) && has_bit(b, (s - 18) as u64) && has_bit(e, (s - 9) as u64))
        || ((s % 8 >= 3 && s / 8 >= 3) && has_bit(b, (s - 27) as u64) && has_bit(e, (s - 9) as u64) && has_bit(e, (s - 18) as u64))
        || ((s % 8 >= 4 && s / 8 >= 4) && has_bit(b, (s - 36) as u64) && has_bit(e, (s - 9) as u64) && has_bit(e, (s - 18) as u64) && has_bit(e, (s - 27) as u64))
        || ((s % 8 >= 5 && s / 8 >= 5) && has_bit(b, (s - 45) as u64) && has_bit(e, (s - 9) as u64) && has_bit(e, (s - 18) as u64) && has_bit(e, (s - 27) as u64) && has_bit(e, (s - 36) as u64))
        || ((s % 8 >= 6 && s / 8 >= 6) && has_bit(b, (s - 54) as u64) && has_bit(e, (s - 9) as u64) && has_bit(e, (s - 18) as u64) && has_bit(e, (s - 27) as u64) && has_bit(e, (s - 36) as u64) && has_bit(e, (s - 45) as u64))
        || ((s % 8 >= 7 && s / 8 >= 7) && has_bit(b, (s - 63) as u64) && has_bit(e, (s - 9) as u64) && has_bit(e, (s - 18) as u64) && has_bit(e, (s - 27) as u64) && has_bit(e, (s - 36) as u64) && has_bit(e, (s - 45) as u64) && has_bit(e, (s - 54) as u64))
}

proof fn lemma_north_east_ray_reach(b: u64, e: u64, s: u64)
    by (bit_vector)
    requires
        s < 64,
    ensures
        has_bit(spec_north_east_ray_attacks(b, e), s) == spec_north_east_ray_reach(b, e, s),
{
}

/// Whether a slider on `b` attacks square `s` north westwards, with `e` the empty
/// squares: some slider stands `k` steps behind `s` on the board (1 <= k <= 7), and
/// the squares strictly between them are empty.
pub open spec fn spec_north_west_ray_reach(b: u64, e: u64, s: u64) -> bool {
    ((s % 8 + 1 <= 7 && s / 8 >= 1) && has_bit(b, (s - 7) as u64))
        || ((s % 8 + 2 <= 7 && s / 8 >= 2) && has_bit(b, (s - 14) as u64) && has_bit(e, (s - 7) as u64))
        || ((s % 8 + 3 <= 7 && s / 8 >= 3) && has_bit(b, (s - 21) as u64) && has_bit(e, (s - 7) as u64) && has_bit(e, (s - 14) as u64))
        || ((s % 8 + 4 <= 7 && s / 8 >= 4) && has_bit(b, (s - 28) as u64) && has_bit(e, (s - 7) as u64) && has_bit(e, (s - 14) as u64) && has_bit(e, (s - 21) as u64))
        || ((s % 8 + 5 <= 7 && s / 8 >= 5) && has_bit(b, (s - 35) as u64) && has_bit(e, (s - 7) as u64) && has_bit(e, (s - 14) as u64) && has_bit(e, (s - 21) as u64) && has_bit(e, (s - 28) as u64))
        || ((s % 8 + 6 <= 7 && s / 8 >= 6) && has_bit(b, (s - 42) as u64) && has_bit(e, (s - 7) as u64) && has_bit(e, (s - 14) as u64) && has_bit(e, (s - 21) as u64) && has_bit(e, (s - 28) as u64) && has_bit(e, (s - 35) as u64))
        || ((s % 8 + 7 <= 7 && s / 8 >= 7) && has_bit(b, (s - 49) as u64) && has_bit(e, (s - 7) as u64) && has_bit(e, (s - 14) as u64) && has_bit(e, (s - 21) as u64) && has_bit(e, (s - 28) as u64) && has_bit(e, (s - 35) as u64) && has_bit(e, (s - 42) as u64))
}

proof fn lemma_north_west_ray_reach(b: u64, e: u64, s: u64)
    by (bit_vector)
    requires
        s < 64,
    ensures
        has_bit(spec_north_west_ray_attacks(b, e), s) == spec_north_west_ray_reach(b, e, s),
{
}

/// Whether a slider on `b` attacks square `s` south eastwards, with `e` the empty
/// squares: some slider stands `k` steps behind `s` on the board (1 <= k <= 7), and
/// the squares strictly between them are empty.
pub open spec fn spec_south_east_ray_reach(b: u64, e: u64, s: u64) -> bool {
    ((s % 8 >= 1 && s / 8 + 1 <= 7) && has_bit(b, (s + 7) as u64))
        || ((s % 8 >= 2 && s / 8 + 2 <= 7) && has_bit(b, (s + 14) as u64) && has_bit(e, (s + 7) as u64))
        || ((s % 8 >= 3 && s / 8 + 3 <= 7) && has_bit(b, (s + 21) as u64) && has_bit(e, (s + 7) as u64) && has_bit(e, (s + 14) as u64))
        || ((s % 8 >= 4 && s / 8 + 4 <= 7) && has_bit(b, (s + 28) as u64) && has_bit(e, (s + 7) as u64) && has_bit(e, (s + 14) as u64) && has_bit(e, (s + 21) as u64))
        || ((s % 8 >= 5 && s / 8 + 5 <= 7) && has_bit(b, (s + 35) as u64) && has_bit(e, (s + 7) as u64) && has_bit(e, (s + 14) as u64) && has_bit(e, (s + 21) as u64) && has_bit(e, (s + 28) as u64))
        || ((s % 8 >= 6 && s / 8 + 6 <= 7) && has_bit(b, (s + 42) as u64) && has_bit(e, (s + 7) as u64) && has_bit(e, (s + 14) as u64) && has_bit(e, (s + 21) as u64) && has_bit(e, (s + 28) as u64) && has_bit(e, (s + 35) as u64))
        || ((s % 8 >= 7 && s / 8 + 7 <= 7) && has_bit(b, (s + 49) as u64) && has_bit(e, (s + 7) as u64) && has_bit(e, (s + 14) as u64) && has_bit(e, (s + 21) as u64) && has_bit(e, (s + 28) as u64) && has_bit(e, (s + 35) as u64) && has_bit(e, (s + 42) as u64))
}

proof fn lemma_south_east_ray_reach(b: u64, e: u64, s: u64)
    by (bit_vector)
    requires
        s < 64,
    ensures
        has_bit(spec_south_east_ray_attacks(b, e), s) == spec_south_east_ray_reach(b, e, s),
{
}

/// Whether a slider on `b` attacks square `s` south westwards, with `e` the empty
/// squares: some slider stands `k` steps behind `s` on the board (1 <= k <= 7), and
/// the squares strictly between them are empty.
pub open spec fn spec_south_west_ray_reach(b: u64, e: u64, s: u64) -> bool {
    ((s % 8 + 1 <= 7 && s / 8 + 1 <= 7) && has_bit(b, (s + 9) as u64))
        || ((s % 8 + 2 <= 7 && s / 8 + 2 <= 7) && has_bit(b, (s + 18) as u64) && has_bit(e, (s + 9) as u64))
        || ((s % 8 + 3 <= 7 && s / 8 + 3 <= 7) && has_bit(b, (s + 27) as u64) && has_bit(e, (s + 9) as u64) && has_bit(e, (s + 18) as u64))
        || ((s % 8 + 4 <= 7 && s / 8 + 4 <= 7) && has_bit(b, (s + 36) as u64) && has_bit(e, (s + 9) as u64) && has_bit(e, (s + 18) as u64) && has_bit(e, (s + 27) as u64))
        || ((s % 8 + 5 <= 7 && s / 8 + 5 <= 7) && has_bit(b, (s + 45) as u64) && has_bit(e, (s + 9) as u64) && has_bit(e, (s + 18) as u64) && has_bit(e, (s + 27) as u64) && has_bit(e, (s + 36) as u64))
        || ((s % 8 + 6 <= 7 && s / 8 + 6 <= 7) && has_bit(b, (s + 54) as u64) && has_bit(e, (s + 9) as u64) && has_bit(e, (s + 18) as u64) && has_bit(e, (s + 27) as u64) && has_bit(e, (s + 36) as u64) && has_bit(e, (s + 45) as u64))
        || ((s % 8 + 7 <= 7 && s / 8 + 7 <= 7) && has_bit(b, (s + 63) as u64) && has_bit(e, (s + 9) as u64) && has_bit(e, (s + 18) as u64) && has_bit(e, (s + 27) as u64) && has_bit(e, (s + 36) as u64) && has_bit(e, (s + 45) as u64) && has_bit(e, (s + 54) as u64))
}

proof fn lemma_south_west_ray_reach(b: u64, e: u64, s: u64)
    by (bit_vector)
    requires
        s < 64,
    ensures
        has_bit(spec_south_west_ray_attacks(b, e), s) == spec_south_west_ray_reach(b, e, s),
{
}

/// Whether the occluded fill north from `b` through `e` sets square `s`: `s` is
/// in `b`, or some square of `b` stands `k` steps behind `s` on the board
/// (1 <= k <= 7) and `s` and the squares between them are all in `e`.
pub open spec fn spec_north_occluded_reach(b: u64, e: u64, s: u64) -> bool {
    has_bit(b, s)
        || ((s / 8 >= 1) && has_bit(b, (s - 8) as u64) && has_bit(e, s))
        || ((s / 8 >= 2) && has_bit(b, (s - 16) as u64) && has_bit(e, s) && has_bit(e, (s - 8) as u64))
        || ((s / 8 >= 3) && has_bit(b, (s - 24) as u64) && has_bit(e, s) && has_bit(e, (s - 8) as u64) && has_bit(e, (s - 16) as u64))
        || ((s / 8 >= 4) && has_bit(b, (s - 32) as u64) && has_bit(e, s) && has_bit(e, (s - 8) as u64) && has_bit(e, (s - 16) as u64) && has_bit(e, (s - 24) as u64))
        || ((s / 8 >= 5) && has_bit(b, (s - 40) as u64) && has_bit(e, s) && has_bit(e, (s - 8) as u64) && has_bit(e, (s - 16) as u64) && has_bit(e, (s - 24) as u64) && has_bit(e, (s - 32) as u64))
        || ((s / 8 >= 6) && has_bit(b, (s - 48) as u64) && has_bit(e, s) && has_bit(e, (s - 8) as u64) && has_bit(e, (s - 16) as u64) && has_bit(e, (s - 24) as u64) && has_bit(e, (s - 32) as u64) && has_bit(e, (s - 40) as u64))
        || ((s / 8 >= 7) && has_bit(b, (s - 56) as u64) && has_bit(e, s) && has_bit(e, (s - 8) as u64) && has_bit(e, (s - 16) as u64) && has_bit(e, (s - 24) as u64) && has_bit(e, (s - 32) as u64) && has_bit(e, (s - 40) as u64) && has_bit(e, (s - 48) as u64))
}

/// Whether the fill north from `b` sets square `s`: `s` is in `b`, or some square
/// of `b` stands behind `s` on the board along that direction.
pub open spec fn spec_north_fill_reach(b: u64, s: u64) -> bool {
    has_bit(b, s)
        || ((s / 8 >= 1) && has_bit(b, (s - 8) as u64))
        || ((s / 8 >= 2) && has_bit(b, (s - 16) as u64))
        || ((s / 8 >= 3) && has_bit(b, (s - 24) as u64))
        || ((s / 8 >= 4) && has_bit(b, (s - 32) as u64))
        || ((s / 8 >= 5) && has_bit(b, (s - 40) as u64))
        || ((s / 8 >= 6) && has_bit(b, (s - 48) as u64))
        || ((s / 8 >= 7) && has_bit(b, (s - 56) as u64))
}

proof fn lemma_north_occluded_reach(b: u64, e: u64, s: u64)
    by (bit_vector)
    requires
        s < 64,
    ensures
        has_bit(spec_north_occluded_fill(b, e), s) == spec_north_occluded_reach(b, e, s),
        spec_north_fill_reach(b, s) == spec_north_occluded_reach(b, 0xFFFF_FFFF_FFFF_FFFFu64, s),
{
}

/// Whether the occluded fill south from `b` through `e` sets square `s`: `s` is
/// in `b`, or some square of `b` stands `k` steps behind `s` on the board
/// (1 <= k <= 7) and `s` and the squares between them are all in `e`.
pub open spec fn spec_south_occluded_reach(b: u64, e: u64, s: u64) -> bool {
    has_bit(b, s)
        || ((s / 8 + 1 <= 7) && has_bit(b, (s + 8) as u64) && has_bit(e, s))
        || ((s / 8 + 2 <= 7) && has_bit(b, (s + 16) as u64) && has_bit(e, s) && has_bit(e, (s + 8) as u64))
        || ((s / 8 + 3 <= 7) && has_bit(b, (s + 24) as u64) && has_bit(e, s) && has_bit(e, (s + 8) as u64) && has_bit(e, (s + 16) as u64))
        || ((s / 8 + 4 <= 7) && has_bit(b, (s + 32) as u64) && has_bit(e, s) && has_bit(e, (s + 8) as u64) && has_bit(e, (s + 16) as u64) && has_bit(e, (s + 24) as u64))
        || ((s / 8 + 5 <= 7) && has_bit(b, (s + 40) as u64) && has_bit(e, s) && has_bit(e, (s + 8) as u64) && has_bit(e, (s + 16) as u64) && has_bit(e, (s + 24) as u64) && has_bit(e, (s + 32) as u64))
        || ((s / 8 + 6 <= 7) && has_bit(b, (s + 48) as u64) && has_bit(e, s) && has_bit(e, (s + 8) as u64) && has_bit(e, (s + 16) as u64) && has_bit(e, (s + 24) as u64) && has_bit(e, (s + 32) as u64) && has_bit(e, (s + 40) as u64))
        || ((s / 8 + 7 <= 7) && has_bit(b, (s + 56) as u64) && has_bit(e, s) && has_bit(e, (s + 8) as u64) && has_bit(e, (s + 16) as u64) && has_bit(e, (s + 24) as u64) && has_bit(e, (s + 32) as u64) && has_bit(e, (s + 40) as u64) && has_bit(e, (s + 48) as u64))
}

/// Whether the fill south from `b` sets square `s`: `s` is in `b`, or some square
/// of `b` stands behind `s` on the board along that direction.
pub open spec fn spec_south_fill_reach(b: u64, s: u64) -> bool {
    has_bit(b, s)
        || ((s / 8 + 1 <= 7) && has_bit(b, (s + 8) as u64))
        || ((s / 8 + 2 <= 7) && has_bit(b, (s + 16) as u64))
        || ((s / 8 + 3 <= 7) && has_bit(b, (s + 24) as u64))
        || ((s / 8 + 4 <= 7) && has_bit(b, (s + 32) as u64))
        || ((s / 8 + 5 <= 7) && has_bit(b, (s + 40) as u64))
        || ((s / 8 + 6 <= 7) && has_bit(b, (s + 48) as u64))
        || ((s / 8 + 7 <= 7) && has_bit(b, (s + 56) as u64))
}

proof fn lemma_south_occluded_reach(b: u64, e: u64, s: u64)
    by (bit_vector)
    requires
        s < 64,
    ensures
        has_bit(spec_south_occluded_fill(b, e), s) == spec_south_occluded_reach(b, e, s),
        spec_south_fill_reach(b, s) == spec_south_occluded_reach(b, 0xFFFF_FFFF_FFFF_FFFFu64, s),
{
}

/// Whether the occluded fill east from `b` through `e` sets square `s`: `s` is
/// in `b`, or some square of `b` stands `k` steps behind `s` on the board
/// (1 <= k <= 7) and `s` and the squares between them are all in `e`.
pub open spec fn spec_east_occluded_reach(b: u64, e: u64, s: u64) -> bool {
    has_bit(b, s)
        || ((s % 8 >= 1) && has_bit(b, (s - 1) as u64) && has_bit(e, s))
        || ((s % 8 >= 2) && has_bit(b, (s - 2) as u64) && has_bit(e, s) && has_bit(e, (s - 1) as u64))
        || ((s % 8 >= 3) && has_bit(b, (s - 3) as u64) && has_bit(e, s) && has_bit(e, (s - 1) as u64) && has_bit(e, (s - 2) as u64))
        || ((s % 8 >= 4) && has_bit(b, (s - 4) as u64) && has_bit(e, s) && has_bit(e, (s - 1) as u64) && has_bit(e, (s - 2) as u64) && has_bit(e, (s - 3) as u64))
        || ((s % 8 >= 5) && has_bit(b, (s - 5) as u64) && has_bit(e, s) && has_bit(e, (s - 1) as u64) && has_bit(e, (s - 2) as u64) && has_bit(e, (s - 3) as u64) && has_bit(e, (s - 4) as u64))
        || ((s % 8 >= 6) && has_bit(b, (s - 6) as u64) && has_bit(e, s) && has_bit(e, (s - 1) as u64) && has_bit(e, (s - 2) as u64) && has_bit(e, (s - 3) as u64) && has_bit(e, (s - 4) as u64) && has_bit(e, (s - 5) as u64))
        || ((s % 8 >= 7) && has_bit(b, (s - 7) as u64) && has_bit(e, s) && has_bit(e, (s - 1) as u64) && has_bit(e, (s - 2) as u64) && has_bit(e, (s - 3) as u64) && has_bit(e, (s - 4) as u64) && has_bit(e, (s - 5) as u64) && has_bit(e, (s - 6) as u64))
}

/// Whether the fill east from `b` sets square `s`: `s` is in `b`, or some square
/// of `b` stands behind `s` on the board along that direction.
pub open spec fn spec_east_fill_reach(b: u64, s: u64) -> bool {
    has_bit(b, s)
        || ((s % 8 >= 1) && has_bit(b, (s - 1) as u64))
        || ((s % 8 >= 2) && has_bit(b, (s - 2) as u64))
        || ((s % 8 >= 3) && has_bit(b, (s - 3) as u64))
        || ((s % 8 >= 4) && has_bit(b, (s - 4) as u64))
        || ((s % 8 >= 5) && has_bit(b, (s - 5) as u64))
        || ((s % 8 >= 6) && has_bit(b, (s - 6) as u64))
        || ((s % 8 >= 7) && has_bit(b, (s - 7) as u64))
}

proof fn lemma_east_occluded_reach(b: u64, e: u64, s: u64)
    by (bit_vector)
    requires
        s < 64,
    ensures
        has_bit(spec_east_occluded_fill(b, e), s) == spec_east_occluded_reach(b, e, s),
        spec_east_fill_reach(b, s) == spec_east_occluded_reach(b, 0xFFFF_FFFF_FFFF_FFFFu64, s),
{
}

/// Whether the occluded fill west from `b` through `e` sets square `s`: `s` is
/// in `b`, or some square of `b` stands `k` steps behind `s` on the board
/// (1 <= k <= 7) and `s` and the squares between them are all in `e`.
pub open spec fn spec_west_occluded_reach(b: u64, e: u64, s: u64) -> bool {
    has_bit(b, s)
        || ((s % 8 + 1 <= 7) && has_bit(b, (s + 1) as u64) && has_bit(e, s))
        || ((s % 8 + 2 <= 7) && has_bit(b, (s + 2) as u64) && has_bit(e, s) && has_bit(e, (s + 1) as u64))
        || ((s % 8 + 3 <= 7) && has_bit(b, (s + 3) as u64) && has_bit(e, s) && has_bit(e, (s + 1) as u64) && has_bit(e, (s + 2) as u64))
        || ((s % 8 + 4 <= 7) && has_bit(b, (s + 4) as u64) && has_bit(e, s) && has_bit(e, (s + 1) as u64) && has_bit(e, (s + 2) as u64) && has_bit(e, (s + 3) as u64))
        || ((s % 8 + 5 <= 7) && has_bit(b, (s + 5) as u64) && has_bit(e, s) && has_bit(e, (s + 1) as u64) && has_bit(e, (s + 2) as u64) && has_bit(e, (s + 3) as u64) && has_bit(e, (s + 4) as u64))
        || ((s % 8 + 6 <= 7) && has_bit(b, (s + 6) as u64) && has_bit(e, s) && has_bit(e, (s + 1) as u64) && has_bit(e, (s + 2) as u64) && has_bit(e, (s + 3) as u64) && has_bit(e, (s + 4) as u64) && has_bit(e, (s + 5) as u64))
        || ((s % 8 + 7 <= 7) && has_bit(b, (s + 7) as u64) && has_bit(e, s) && has_bit(e, (s + 1) as u64) && has_bit(e, (s + 2) as u64) && has_bit(e, (s + 3) as u64) && has_bit(e, (s + 4) as u64) && has_bit(e, (s + 5) as u64) && has_bit(e, (s + 6) as u64))
}

/// Whether the fill west from `b` sets square `s`: `s` is in `b`, or some square
/// of `b` stands behind `s` on the board along that direction.
pub open spec fn spec_west_fill_reach(b: u64, s: u64) -> bool {
    has_bit(b, s)
        || ((s % 8 + 1 <= 7) && has_bit(b, (s + 1) as u64))
        || ((s % 8 + 2 <= 7) && has_bit(b, (s + 2) as u64))
        || ((s % 8 + 3 <= 7) && has_bit(b, (s + 3) as u64))
        || ((s % 8 + 4 <= 7) && has_bit(b, (s + 4) as u64))
        || ((s % 8 + 5 <= 7) && has_bit(b, (s + 5) as u64))
        || ((s % 8 + 6 <= 7) && has_bit(b, (s + 6) as u64))
        || ((s % 8 + 7 <= 7) && has_bit(b, (s + 7) as u64))
}

proof fn lemma_west_occluded_reach(b: u64, e: u64, s: u64)
    by (bit_vector)
    requires
        s < 64,
    ensures
        has_bit(spec_west_occluded_fill(b, e), s) == spec_west_occluded_reach(b, e, s),
        spec_west_fill_reach(b, s) == spec_west_occluded_reach(b, 0xFFFF_FFFF_FFFF_FFFFu64, s),
{
}

/// Whether the occluded fill north east from `b` through `e` sets square `s`: `s` is
/// in `b`, or some square of `b` stands `k` steps behind `s` on the board
/// (1 <= k <= 7) and `s` and the squares between them are all in `e`.
pub open spec fn spec_north_east_occluded_reach(b: u64, e: u64, s: u64) -> bool {
    has_bit(b, s)
        || ((s % 8 >= 1 && s / 8 >= 1) && has_bit(b, (s - 9) as u64) && has_bit(e, s))
        || ((s % 8 >= 2 && s / 8 >= 2) && has_bit(b, (s - 18) as u64) && has_bit(e, s) && has_bit(e, (s - 9) as u64))
        || ((s % 8 >= 3 && s / 8 >= 3) && has_bit(b, (s - 27) as u64) && has_bit(e, s) && has_bit(e, (s - 9) as u64) && has_bit(e, (s - 18) as u64))
        || ((s % 8 >= 4 && s / 8 >= 4) && has_bit(b, (s - 36) as u64) && has_bit(e, s) && has_bit(e, (s - 9) as u64) && has_bit(e, (s - 18) as u64) && has_bit(e, (s - 27) as u64))
        || ((s % 8 >= 5 && s / 8 >= 5) && has_bit(b, (s - 45) as u64) && has_bit(e, s) && has_bit(e, (s - 9) as u64) && has_bit(e, (s - 18) as u64) && has_bit(e, (s - 27) as u64) && has_bit(e, (s - 36) as u64))
        || ((s % 8 >= 6 && s / 8 >= 6) && has_bit(b, (s - 54) as u64) && has_bit(e, s) && has_bit(e, (s - 9) as u64) && has_bit(e, (s - 18) as u64) && has_bit(e, (s - 27) as u64) && has_bit(e, (s - 36) as u64) && has_bit(e, (s - 45) as u64))
        || ((s % 8 >= 7 && s / 8 >= 7) && has_bit(b, (s - 63) as u64) && has_bit(e, s) && has_bit(e, (s - 9) as u64) && has_bit(e, (s - 18) as u64) && has_bit(e, (s - 27) as u64) && has_bit(e, (s - 36) as u64) && has_bit(e, (s - 45) as u64) && has_bit(e, (s - 54) as u64))
}

/// Whether the fill north east from `b` sets square `s`: `s` is in `b`, or some square
/// of `b` stands behind `s` on the board along that direction.
pub open spec fn spec_north_east_fill_reach(b: u64, s: u64) -> bool {
    has_bit(b, s)
        || ((s % 8 >= 1 && s / 8 >= 1) && has_bit(b, (s - 9) as u64))
        || ((s % 8 >= 2 && s / 8 >= 2) && has_bit(b, (s - 18) as u64))
        || ((s % 8 >= 3 && s / 8 >= 3) && has_bit(b, (s - 27) as u64))
        || ((s % 8 >= 4 && s / 8 >= 4) && has_bit(b, (s - 36) as u64))
        || ((s % 8 >= 5 && s / 8 >= 5) && has_bit(b, (s - 45) as u64))
        || ((s % 8 >= 6 && s / 8 >= 6) && has_bit(b, (s - 54) as u64))
        || ((s % 8 >= 7 && s / 8 >= 7) && has_bit(b, (s - 63) as u64))
}

proof fn lemma_north_east_occluded_reach(b: u64, e: u64, s: u64)
    by (bit_vector)
    requires
        s < 64,
    ensures
        has_bit(spec_north_east_occluded_fill(b, e), s) == spec_north_east_occluded_reach(b, e, s),
        spec_north_east_fill_reach(b, s) == spec_north_east_occluded_reach(b, 0xFFFF_FFFF_FFFF_FFFFu64, s),
{
}

/// Whether the occluded fill north west from `b` through `e` sets square `s`: `s` is
/// in `b`, or some square of `b` stands `k` steps behind `s` on the board
/// (1 <= k <= 7) and `s` and the squares between them are all in `e`.
pub open spec fn spec_north_west_occluded_reach(b: u64, e: u64, s: u64) -> bool {
    has_bit(b, s)
        || ((s % 8 + 1 <= 7 && s / 8 >= 1) && has_bit(b, (s - 7) as u64) && has_bit(e, s))
        || ((s % 8 + 2 <= 7 && s / 8 >= 2) && has_bit(b, (s - 14) as u64) && has_bit(e, s) && has_bit(e, (s - 7) as u64))
        || ((s % 8 + 3 <= 7 && s / 8 >= 3) && has_bit(b, (s - 21) as u64) && has_bit(e, s) && has_bit(e, (s - 7) as u64) && has_bit(e, (s - 14) as u64))
        || ((s % 8 + 4 <= 7 && s / 8 >= 4) && has_bit(b, (s - 28) as u64) && has_bit(e, s) && has_bit(e, (s - 7) as u64) && has_bit(e, (s - 14) as u64) && has_bit(e, (s - 21) as u64))
        || ((s % 8 + 5 <= 7 && s / 8 >= 5) && has_bit(b, (s - 35) as u64) && has_bit(e, s) && has_bit(e, (s - 7) as u64) && has_bit(e, (s - 14) as u64) && has_bit(e, (s - 21) as u64) && has_bit(e, (s - 28) as u64))
        || ((s % 8 + 6 <= 7 && s / 8 >= 6) && has_bit(b, (s - 42) as u64) && has_bit(e, s) && has_bit(e, (s - 7) as u64) && has_bit(e, (s - 14) as u64) && has_bit(e, (s - 21) as u64) && has_bit(e, (s - 28) as u64) && has_bit(e, (s - 35) as u64))
        || ((s % 8 + 7 <= 7 && s / 8 >= 7) && has_bit(b, (s - 49) as u64) && has_bit(e, s) && has_bit(e, (s - 7) as u64) && has_bit(e, (s - 14) as u64) && has_bit(e, (s - 21) as u64) && has_bit(e, (s - 28) as u64) && has_bit(e, (s - 35) as u64) && has_bit(e, (s - 42) as u64))
}

/// Whether the fill north west from `b` sets square `s`: `s` is in `b`, or some square
/// of `b` stands behind `s` on the board along that direction.
pub open spec fn spec_north_west_fill_reach(b: u64, s: u64) -> bool {
    has_bit(b, s)
        || ((s % 8 + 1 <= 7 && s / 8 >= 1) && has_bit(b, (s - 7) as u64))
        || ((s % 8 + 2 <= 7 && s / 8 >= 2) && has_bit(b, (s - 14) as u64))
        || ((s % 8 + 3 <= 7 && s / 8 >= 3) && has_bit(b, (s - 21) as u64))
        || ((s % 8 + 4 <= 7 && s / 8 >= 4) && has_bit(b, (s - 28) as u64))
        || ((s % 8 + 5 <= 7 && s / 8 >= 5) && has_bit(b, (s - 35) as u64))
        || ((s % 8 + 6 <= 7 && s / 8 >= 6) && has_bit(b, (s - 42) as u64))
        || ((s % 8 + 7 <= 7 && s / 8 >= 7) && has_bit(b, (s - 49) as u64))
}

proof fn lemma_north_west_occluded_reach(b: u64, e: u64, s: u64)
    by (bit_vector)
    requires
        s < 64,
    ensures
        has_bit(spec_north_west_occluded_fill(b, e), s) == spec_north_west_occluded_reach(b, e, s),
        spec_north_west_fill_reach(b, s) == spec_north_west_occluded_reach(b, 0xFFFF_FFFF_FFFF_FFFFu64, s),
{
}

/// Whether the occluded fill south east from `b` through `e` sets square `s`: `s` is
/// in `b`, or some square of `b` stands `k` steps behind `s` on the board
/// (1 <= k <= 7) and `s` and the squares between them are all in `e`.
pub open spec fn spec_south_east_occluded_reach(b: u64, e: u64, s: u64) -> bool {
    has_bit(b, s)
        || ((s % 8 >= 1 && s / 8 + 1 <= 7) && has_bit(b, (s + 7) as u64) && has_bit(e, s))
        || ((s % 8 >= 2 && s / 8 + 2 <= 7) && has_bit(b, (s + 14) as u64) && has_bit(e, s) && has_bit(e, (s + 7) as u64))
        || ((s % 8 >= 3 && s / 8 + 3 <= 7) && has_bit(b, (s + 21) as u64) && has_bit(e, s) && has_bit(e, (s + 7) as u64) && has_bit(e, (s + 14) as u64))
        || ((s % 8 >= 4 && s / 8 + 4 <= 7) && has_bit(b, (s + 28) as u64) && has_bit(e, s) && has_bit(e, (s + 7) as u64) && has_bit(e, (s + 14) as u64) && has_bit(e, (s + 21) as u64))
        || ((s % 8 >= 5 && s / 8 + 5 <= 7) && has_bit(b, (s + 35) as u64) && has_bit(e, s) && has_bit(e, (s + 7) as u64) && has_bit(e, (s + 14) as u64) && has_bit(e, (s + 21) as u64) && has_bit(e, (s + 28) as u64))
        || ((s % 8 >= 6 && s / 8 + 6 <= 7) && has_bit(b, (s + 42) as u64) && has_bit(e, s) && has_bit(e, (s + 7) as u64) && has_bit(e, (s + 14) as u64) && has_bit(e, (s + 21) as u64) && has_bit(e, (s + 28) as u64) && has_bit(e, (s + 35) as u64))
        || ((s % 8 >= 7 && s / 8 + 7 <= 7) && has_bit(b, (s + 49) as u64) && has_bit(e, s) && has_bit(e, (s + 7) as u64) && has_bit(e, (s + 14) as u64) && has_bit(e, (s + 21) as u64) && has_bit(e, (s + 28) as u64) && has_bit(e, (s + 35) as u64) && has_bit(e, (s + 42) as u64))
}

/// Whether the fill south east from `b` sets square `s`: `s` is in `b`, or some square
/// of `b` stands behind `s` on the board along that direction.
pub open spec fn spec_south_east_fill_reach(b: u64, s: u64) -> bool {
    has_bit(b, s)
        || ((s % 8 >= 1 && s / 8 + 1 <= 7) && has_bit(b, (s + 7) as u64))
        || ((s % 8 >= 2 && s / 8 + 2 <= 7) && has_bit(b, (s + 14) as u64))
        || ((s % 8 >= 3 && s / 8 + 3 <= 7) && has_bit(b, (s + 21) as u64))
        || ((s % 8 >= 4 && s / 8 + 4 <= 7) && has_bit(b, (s + 28) as u64))
        || ((s % 8 >= 5 && s / 8 + 5 <= 7) && has_bit(b, (s + 35) as u64))
        || ((s % 8 >= 6 && s / 8 + 6 <= 7) && has_bit(b, (s + 42) as u64))
        || ((s % 8 >= 7 && s / 8 + 7 <= 7) && has_bit(b, (s + 49) as u64))
}

proof fn lemma_south_east_occluded_reach(b: u64, e: u64, s: u64)
    by (bit_vector)
    requires
        s < 64,
    ensures
        has_bit(spec_south_east_occluded_fill(b, e), s) == spec_south_east_occluded_reach(b, e, s),
        spec_south_east_fill_reach(b, s) == spec_south_east_occluded_reach(b, 0xFFFF_FFFF_FFFF_FFFFu64, s),
{
}

/// Whether the occluded fill south west from `b` through `e` sets square `s`: `s` is
/// in `b`, or some square of `b` stands `k` steps behind `s` on the board
/// (1 <= k <= 7) and `s` and the squares between them are all in `e`.
pub open spec fn spec_south_west_occluded_reach(b: u64, e: u64, s: u64) -> bool {
    has_bit(b, s)
        || ((s % 8 + 1 <= 7 && s / 8 + 1 <= 7) && has_bit(b, (s + 9) as u64) && has_bit(e, s))
        || ((s % 8 + 2 <= 7 && s / 8 + 2 <= 7) && has_bit(b, (s + 18) as u64) && has_bit(e, s) && has_bit(e, (s + 9) as u64))
        || ((s % 8 + 3 <= 7 && s / 8 + 3 <= 7) && has_bit(b, (s + 27) as u64) && has_bit(e, s) && has_bit(e, (s + 9) as u64) && has_bit(e, (s + 18) as u64))
        || ((s % 8 + 4 <= 7 && s / 8 + 4 <= 7) && has_bit(b, (s + 36) as u64) && has_bit(e, s) && has_bit(e, (s + 9) as u64) && has_bit(e, (s + 18) as u64) && has_bit(e, (s + 27) as u64))
        || ((s % 8 + 5 <= 7 && s / 8 + 5 <= 7) && has_bit(b, (s + 45) as u64) && has_bit(e, s) && has_bit(e, (s + 9) as u64) && has_bit(e, (s + 18) as u64) && has_bit(e, (s + 27) as u64) && has_bit(e, (s + 36) as u64))
        || ((s % 8 + 6 <= 7 && s / 8 + 6 <= 7) && has_bit(b, (s + 54) as u64) && has_bit(e, s) && has_bit(e, (s + 9) as u64) && has_bit(e, (s + 18) as u64) && has_bit(e, (s + 27) as u64) && has_bit(e, (s + 36) as u64) && has_bit(e, (s + 45) as u64))
        || ((s % 8 + 7 <= 7 && s / 8 + 7 <= 7) && has_bit(b, (s + 63) as u64) && has_bit(e, s) && has_bit(e, (s + 9) as u64) && has_bit(e, (s + 18) as u64) && has_bit(e, (s + 27) as u64) && has_bit(e, (s + 36) as u64) && has_bit(e, (s + 45) as u64) && has_bit(e, (s + 54) as u64))
}

/// Whether the fill south west from `b` sets square `s`: `s` is in `b`, or some square
/// of `b` stands behind `s` on the board along that direction.
pub open spec fn spec_south_west_fill_reach(b: u64, s: u64) -> bool {
    has_bit(b, s)
        || ((s % 8 + 1 <= 7 && s / 8 + 1 <= 7) && has_bit(b, (s + 9) as u64))
        || ((s % 8 + 2 <= 7 && s / 8 + 2 <= 7) && has_bit(b, (s + 18) as u64))
        || ((s % 8 + 3 <= 7 && s / 8 + 3 <= 7) && has_bit(b, (s + 27) as u64))
        || ((s % 8 + 4 <= 7 && s / 8 + 4 <= 7) && has_bit(b, (s + 36) as u64))
        || ((s % 8 + 5 <= 7 && s / 8 + 5 <= 7) && has_bit(b, (s + 45) as u64))
        || ((s % 8 + 6 <= 7 && s / 8 + 6 <= 7) && has_bit(b, (s + 54) as u64))
        || ((s % 8 + 7 <= 7 && s / 8 + 7 <= 7) && has_bit(b, (s + 63) as u64))
}

proof fn lemma_south_west_occluded_reach(b: u64, e: u64, s: u64)
    by (bit_vector)
    requires
        s < 64,
    ensures
        has_bit(spec_south_west_occluded_fill(b, e), s) == spec_south_west_occluded_reach(b, e, s),
        spec_south_west_fill_reach(b, s) == spec_south_west_occluded_reach(b, 0xFFFF_FFFF_FFFF_FFFFu64, s),
{
}

/// An unbounded fill is the occluded fill through a board with every square empty.
proof fn lemma_fill_is_unoccluded(b: u64)
    ensures
        spec_north_fill(b) == spec_north_occluded_fill(b, ALL),
        spec_south_fill(b) == spec_south_occluded_fill(b, ALL),
        spec_east_fill(b) == spec_east_occluded_fill(b, ALL),
        spec_west_fill(b) == spec_west_occluded_fill(b, ALL),
        spec_north_east_fill(b) == spec_north_east_occluded_fill(b, ALL),
        spec_north_west_fill(b) == spec_north_west_occluded_fill(b, ALL),
        spec_south_east_fill(b) == spec_south_east_occluded_fill(b, ALL),
        spec_south_west_fill(b) == spec_south_west_occluded_fill(b, ALL),
{
    assert(spec_north_fill(b) == spec_north_occluded_fill(b, 0xFFFF_FFFF_FFFF_FFFFu64)
        && spec_south_fill(b) == spec_south_occluded_fill(b, 0xFFFF_FFFF_FFFF_FFFFu64)
        && spec_east_fill(b) == spec_east_occluded_fill(b, 0xFFFF_FFFF_FFFF_FFFFu64)
        && spec_west_fill(b) == spec_west_occluded_fill(b, 0xFFFF_FFFF_FFFF_FFFFu64)
        && spec_north_east_fill(b) == spec_north_east_occluded_fill(b, 0xFFFF_FFFF_FFFF_FFFFu64)
        && spec_north_west_fill(b) == spec_north_west_occluded_fill(b, 0xFFFF_FFFF_FFFF_FFFFu64)
        && spec_south_east_fill(b) == spec_south_east_occluded_fill(b, 0xFFFF_FFFF_FFFF_FFFFu64)
        && spec_south_west_fill(b) == spec_south_west_occluded_fill(b, 0xFFFF_FFFF_FFFF_FFFFu64)) by (bit_vector);
}

/// Whether a one-step shift north of `b` sets square `s`: the square one step
/// behind `s` is on the board and set in `b`.
pub open spec fn spec_north_shift_reach(b: u64, s: u64) -> bool {
    (s / 8 >= 1) && has_bit(b, (s - 8) as u64)
}

/// Whether a one-step shift south of `b` sets square `s`: the square one step
/// behind `s` is on the board and set in `b`.
pub open spec fn spec_south_shift_reach(b: u64, s: u64) -> bool {
    (s / 8 <= 6) && has_bit(b, (s + 8) as u64)
}

/// Whether a one-step shift east of `b` sets square `s`: the square one step
/// behind `s` is on the board and set in `b`.
pub open spec fn spec_east_shift_reach(b: u64, s: u64) -> bool {
    (s % 8 >= 1) && has_bit(b, (s - 1) as u64)
}

/// Whether a one-step shift west of `b` sets square `s`: the square one step
/// behind `s` is on the board and set in `b`.
pub open spec fn spec_west_shift_reach(b: u64, s: u64) -> bool {
    (s % 8 <= 6) && has_bit(b, (s + 1) as u64)
}

/// Whether a one-step shift north east of `b` sets square `s`: the square one step
/// behind `s` is on the board and set in `b`.
pub open spec fn spec_north_east_shift_reach(b: u64, s: u64) -> bool {
    (s % 8 >= 1 && s / 8 >= 1) && has_bit(b, (s - 9) as u64)
}

/// Whether a one-step shift north west of `b` sets square `s`: the square one step
/// behind `s` is on the board and set in `b`.
pub open spec fn spec_north_west_shift_reach(b: u64, s: u64) -> bool {
    (s % 8 <= 6 && s / 8 >= 1) && has_bit(b, (s - 7) as u64)
}

/// Whether a one-step shift south east of `b` sets square `s`: the square one step
/// behind `s` is on the board and set in `b`.
pub open spec fn spec_south_east_shift_reach(b: u64, s: u64) -> bool {
    (s % 8 >= 1 && s / 8 <= 6) && has_bit(b, (s + 7) as u64)
}

/// Whether a one-step shift south west of `b` sets square `s`: the square one step
/// behind `s` is on the board and set in `b`.
pub open spec fn spec_south_west_shift_reach(b: u64, s: u64) -> bool {
    (s % 8 <= 6 && s / 8 <= 6) && has_bit(b, (s + 9) as u64)
}

/// Each one-step shift moves every square one step and drops those that would
/// leave the board.
proof fn lemma_shift_reach(b: u64, s: u64)
    by (bit_vector)
    requires
        s < 64,
    ensures
        has_bit(spec_north_shift(b), s) == spec_north_shift_reach(b, s),
        has_bit(spec_south_shift(b), s) == spec_south_shift_reach(b, s),
        has_bit(spec_east_shift(b), s) == spec_east_shift_reach(b, s),
        has_bit(spec_west_shift(b), s) == spec_west_shift_reach(b, s),
        has_bit(spec_north_east_shift(b), s) == spec_north_east_shift_reach(b, s),
        has_bit(spec_north_west_shift(b), s) == spec_north_west_shift_reach(b, s),
        has_bit(spec_south_east_shift(b), s) == spec_south_east_shift_reach(b, s),
        has_bit(spec_south_west_shift(b), s) == spec_south_west_shift_reach(b, s),
{
}

} // verus!
