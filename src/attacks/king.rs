//! King attacks.
use vstd::prelude::*;

use crate::bitboard::{
    has_bit,
    east_shift, north_shift, south_shift, spec_east_shift, spec_north_shift, spec_south_shift,
    spec_west_shift, west_shift,
};

verus! {

/// The squares that kings on the set squares of `b` attack: the eight neighbours
/// of each, those off the board left out.
pub open spec fn spec_king_attacks(b: u64) -> u64 {
    let row = spec_east_shift(b) | spec_west_shift(b);
    let band = b | row;
    row | spec_north_shift(band) | spec_south_shift(band)
}

/// Whether square `s` neighbours a square of `b`: one of the eight squares
/// around `s` on the board is set in `b`.
pub open spec fn spec_king_reach(b: u64, s: u64) -> bool {
    (s % 8 >= 1 && s / 8 >= 1 && has_bit(b, (s - 9) as u64))
        || (s % 8 >= 1 && has_bit(b, (s - 1) as u64))
        || (s % 8 >= 1 && s / 8 <= 6 && has_bit(b, (s + 7) as u64))
        || (s / 8 >= 1 && has_bit(b, (s - 8) as u64))
        || (s / 8 <= 6 && has_bit(b, (s + 8) as u64))
        || (s % 8 <= 6 && s / 8 >= 1 && has_bit(b, (s - 7) as u64))
        || (s % 8 <= 6 && has_bit(b, (s + 1) as u64))
        || (s % 8 <= 6 && s / 8 <= 6 && has_bit(b, (s + 9) as u64))
}

proof fn lemma_king_reach(b: u64, s: u64)
    by (bit_vector)
    requires
        s < 64,
    ensures
        has_bit(spec_king_attacks(b), s) == spec_king_reach(b, s),
{
}

/// The squares that kings on the set squares of `king_mask` attack.
pub fn king_attacks(king_mask: u64) -> (r: u64)
    ensures
        r == spec_king_attacks(king_mask),
        forall|s: u64| s < 64 ==> (#[trigger] has_bit(r, s) <==> spec_king_reach(king_mask, s)),
{
    proof {
        assert forall|s: u64| s < 64 implies (#[trigger] has_bit(spec_king_attacks(king_mask), s)
            <==> spec_king_reach(king_mask, s)) by {
            lemma_king_reach(king_mask, s);
        }
    }
    let mut attacks = east_shift(king_mask) | west_shift(king_mask);
    let band = king_mask | attacks;
    attacks = attacks | north_shift(band) | south_shift(band);
    attacks
}

} // verus!
