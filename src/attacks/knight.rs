//! Knight attacks.
use vstd::prelude::*;

use crate::bitboard::has_bit;
use crate::square::masks::{A_FILE, B_FILE, G_FILE, H_FILE};

verus! {

/// The squares that knights on the set squares of `b` attack; jumps that would
/// wrap around a board edge are left out.
pub open spec fn spec_knight_attacks(b: u64) -> u64 {
    (((b << 15u64) | (b >> 17u64)) & !H_FILE) | (((b >> 15u64) | (b << 17u64)) & !A_FILE)
        | (((b << 6u64) | (b >> 10u64)) & !(G_FILE | H_FILE))
        | (((b >> 6u64) | (b << 10u64)) & !(A_FILE | B_FILE))
}

/// Whether a knight's jump, two squares one way and one the other, leads from
/// a square of `b` to square `s` without leaving the board.
pub open spec fn spec_knight_reach(b: u64, s: u64) -> bool {
    (s % 8 <= 6 && s / 8 <= 5 && has_bit(b, (s + 17) as u64))
        || (s % 8 <= 5 && s / 8 <= 6 && has_bit(b, (s + 10) as u64))
        || (s % 8 >= 1 && s / 8 <= 5 && has_bit(b, (s + 15) as u64))
        || (s % 8 >= 2 && s / 8 <= 6 && has_bit(b, (s + 6) as u64))
        || (s % 8 <= 6 && s / 8 >= 2 && has_bit(b, (s - 15) as u64))
        || (s % 8 <= 5 && s / 8 >= 1 && has_bit(b, (s - 6) as u64))
        || (s % 8 >= 1 && s / 8 >= 2 && has_bit(b, (s - 17) as u64))
        || (s % 8 >= 2 && s / 8 >= 1 && has_bit(b, (s - 10) as u64))
}

proof fn lemma_knight_reach(b: u64, s: u64)
    by (bit_vector)
    requires
        s < 64,
    ensures
        has_bit(spec_knight_attacks(b), s) == spec_knight_reach(b, s),
{
}

/// The squares that knights on the set squares of `knight_mask` attack.
pub fn knight_attacks(knight_mask: u64) -> (r: u64)
    ensures
        r == spec_knight_attacks(knight_mask),
        forall|s: u64| s < 64 ==> (#[trigger] has_bit(r, s) <==> spec_knight_reach(knight_mask, s)),
{
    proof {
        assert forall|s: u64| s < 64 implies (#[trigger] has_bit(spec_knight_attacks(knight_mask), s)
            <==> spec_knight_reach(knight_mask, s)) by {
            lemma_knight_reach(knight_mask, s);
        }
    }
    (((knight_mask << 15) | (knight_mask >> 17)) & !H_FILE) | (((knight_mask >> 15) | (knight_mask
        << 17)) & !A_FILE) | (((knight_mask << 6) | (knight_mask >> 10)) & !(G_FILE | H_FILE)) | (((
    knight_mask >> 6) | (knight_mask << 10)) & !(A_FILE | B_FILE))
}

} // verus!
