//! Attack generation: leapers by formula, sliders by magic-bitboard tables.
use vstd::prelude::*;

pub mod king;
pub mod knight;
pub mod pawn;
pub mod sliding;

pub use king::king_attacks;
pub use knight::knight_attacks;
pub use pawn::pawn_attacks;
pub use sliding::SlidingAttacks;

use crate::bitboard::{spec_cardinal_ray_attacks, spec_diagonal_ray_attacks};
use crate::pieces::Piece;
use crate::square::{bit_mask, Square};

verus! {

/// Attacks of a knight or slider of kind `piece` on `from_square` over the
/// occupancy `occupied`; pawns and kings are handled by their own functions.
pub fn pseudo_attacks(tables: &SlidingAttacks, piece: Piece, from_square: Square, occupied: u64) -> (r: u64)
    requires
        tables.wf(),
        piece == Piece::Bishop || piece == Piece::Rook || piece == Piece::Knight || piece == Piece::Queen,
    ensures
        piece == Piece::Bishop ==> r == spec_diagonal_ray_attacks(bit_mask(from_square.spec_offset()), !occupied),
        piece == Piece::Rook ==> r == spec_cardinal_ray_attacks(bit_mask(from_square.spec_offset()), !occupied),
        piece == Piece::Queen ==> r == spec_cardinal_ray_attacks(bit_mask(from_square.spec_offset()), !occupied)
            | spec_diagonal_ray_attacks(bit_mask(from_square.spec_offset()), !occupied),
        piece == Piece::Knight ==> r == knight::spec_knight_attacks(bit_mask(from_square.spec_offset())),
{
    match piece {
        Piece::Bishop => tables.bishop_attacks(from_square, occupied),
        Piece::Rook => tables.rook_attacks(from_square, occupied),
        Piece::Queen => tables.queen_attacks(from_square, occupied),
        _ => knight_attacks(from_square.mask()),
    }
}

/// Builds the slider attack tables.
pub fn init_attacks() -> (r: SlidingAttacks)
    ensures
        r.wf(),
{
    SlidingAttacks::new()
}

} // verus!
