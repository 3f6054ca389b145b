//! Pawn pushes and captures.
use vstd::prelude::*;

use crate::bitboard::{
    has_bit, spec_north_east_shift_reach, spec_north_shift_reach, spec_north_west_shift_reach,
    spec_south_east_shift_reach, spec_south_shift_reach, spec_south_west_shift_reach,
    north_east_shift, north_shift, north_west_shift, south_east_shift, south_shift, south_west_shift,
    spec_north_east_shift, spec_north_shift, spec_north_west_shift, spec_south_east_shift,
    spec_south_shift, spec_south_west_shift,
};
use crate::side::Side;
use crate::square::Square;

verus! {

/// The single pushes of pawns of `side` on the set squares of `b`, ignoring blockers.
pub open spec fn spec_pawn_pushes(side: Side, b: u64) -> u64 {
    if side == Side::White {
        spec_north_shift(b)
    } else {
        spec_south_shift(b)
    }
}

/// Captures of pawns of `side` towards the A file.
pub open spec fn spec_west_attacks(side: Side, b: u64) -> u64 {
    if side == Side::White {
        spec_north_west_shift(b)
    } else {
        spec_south_west_shift(b)
    }
}

/// Captures of pawns of `side` towards the H file.
pub open spec fn spec_east_attacks(side: Side, b: u64) -> u64 {
    if side == Side::White {
        spec_north_east_shift(b)
    } else {
        spec_south_east_shift(b)
    }
}

/// The square one rank ahead of `o` for pawns of `side`.
pub open spec fn spec_pawn_step(side: Side, o: int) -> int {
    if side == Side::White {
        o + 8
    } else {
        o - 8
    }
}

/// The single pushes of pawns of `side` on the set squares of `from_mask`.
pub fn pawn_pushes(side: Side, from_mask: u64) -> (r: u64)
    ensures
        r == spec_pawn_pushes(side, from_mask),
        forall|s: u64| s < 64 ==> (#[trigger] has_bit(r, s) <==> if side == Side::White {
            spec_north_shift_reach(from_mask, s)
        } else {
            spec_south_shift_reach(from_mask, s)
        }),
{
    match side {
        Side::White => north_shift(from_mask),
        Side::Black => south_shift(from_mask),
    }
}

/// The captures towards the A file of pawns of `side` on `from_mask`.
pub fn west_attacks(side: Side, from_mask: u64) -> (r: u64)
    ensures
        r == spec_west_attacks(side, from_mask),
        forall|s: u64| s < 64 ==> (#[trigger] has_bit(r, s) <==> if side == Side::White {
            spec_north_west_shift_reach(from_mask, s)
        } else {
            spec_south_west_shift_reach(from_mask, s)
        }),
{
    match side {
        Side::White => north_west_shift(from_mask),
        Side::Black => south_west_shift(from_mask),
    }
}

/// The captures towards the H file of pawns of `side` on `from_mask`.
pub fn east_attacks(side: Side, from_mask: u64) -> (r: u64)
    ensures
        r == spec_east_attacks(side, from_mask),
        forall|s: u64| s < 64 ==> (#[trigger] has_bit(r, s) <==> if side == Side::White {
            spec_north_east_shift_reach(from_mask, s)
        } else {
            spec_south_east_shift_reach(from_mask, s)
        }),
{
    match side {
        Side::White => north_east_shift(from_mask),
        Side::Black => south_east_shift(from_mask),
    }
}

/// All captures of pawns of `side` on `from_mask`.
pub fn pawn_attacks(side: Side, from_mask: u64) -> (r: u64)
    ensures
        r == spec_east_attacks(side, from_mask) | spec_west_attacks(side, from_mask),
{
    east_attacks(side, from_mask) | west_attacks(side, from_mask)
}

/// The square one rank ahead of `square` for a pawn of `side`, which must be on the board.
pub fn pawn_square_push(side: Side, square: Square) -> (r: Square)
    requires
        0 <= spec_pawn_step(side, square.spec_offset()) < 64,
    ensures
        r.spec_offset() == spec_pawn_step(side, square.spec_offset()),
{
    let o = square.offset();
    match side {
        Side::White => Square::new(o + 8),
        Side::Black => Square::new(o - 8),
    }
}

/// The square one rank behind `square` for a pawn of `side`, which must be on the board.
pub fn pawn_square_reverse_push(side: Side, square: Square) -> (r: Square)
    requires
        0 <= spec_pawn_step(side.spec_opposite(), square.spec_offset()) < 64,
    ensures
        r.spec_offset() == spec_pawn_step(side.spec_opposite(), square.spec_offset()),
{
    pawn_square_push(side.opposite(), square)
}

} // verus!
