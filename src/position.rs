//! The position model: piece bitboards kept in agreement with a mailbox.
use vstd::prelude::*;

use crate::bitboard::has_bit;
use crate::castles::CastlePermissions;
use crate::pieces::ColoredPiece;
use crate::side::Side;
use crate::square::Square;

verus! {

/// A chess position: side to move, clocks, castle rights, en-passant target,
/// the mailbox (the piece on each square) and one bitboard per colored piece.
#[derive(Copy, Clone, Debug)]
pub struct Position {
    pub side: Side,
    pub fullmove_count: u16,
    pub halfmove_clock: Option<u8>,
    pub castle_rights: CastlePermissions,
    pub enpassant_square: Option<Square>,
    /// The piece on each square, by offset.
    pub squares: [ColoredPiece; 64],
    /// One bitboard per colored piece, by `ColoredPiece::index`.
    pub piece_masks: [u64; 12],
}

/// Whether the bitboards agree with the mailbox: square `s` is set in bitboard
/// `k` exactly when the piece on `s` has index `k`. So the bitboards are
/// pairwise disjoint, and an empty square is in none of them.
pub open spec fn mailbox_agrees(squares: Seq<ColoredPiece>, masks: Seq<u64>) -> bool {
    &&& squares.len() == 64
    &&& masks.len() == 12
    &&& forall|s: u64, k: int|
        s < 64 && 0 <= k < 12 ==> (#[trigger] has_bit(masks[k], s) <==> squares[s as int].spec_index() == k)
}

impl Position {
    /// The bitboards agree with the mailbox.
    pub open spec fn wf(&self) -> bool {
        mailbox_agrees(self.squares@, self.piece_masks@)
    }

    /// The squares that hold a piece.
    pub fn occupied_mask(&self) -> (r: u64)
        requires
            self.wf(),
        ensures
            forall|s: u64| s < 64 ==> (#[trigger] has_bit(r, s) <==> self.squares@[s as int] != ColoredPiece::Empty),
    {
        let r = self.white_mask() | self.black_mask();
        proof {
            assert forall|s: u64| s < 64 implies (#[trigger] has_bit(r, s) <==> self.squares@[s as int]
                != ColoredPiece::Empty) by {
                lemma_or_bit(self.white_mask_spec(), self.black_mask_spec(), s);
            }
        }
        r
    }

    /// The squares that hold no piece.
    pub fn empty_mask(&self) -> (r: u64)
        requires
            self.wf(),
        ensures
            forall|s: u64| s < 64 ==> (#[trigger] has_bit(r, s) <==> self.squares@[s as int] == ColoredPiece::Empty),
    {
        let o = self.occupied_mask();
        let r = !o;
        proof {
            assert forall|s: u64| s < 64 implies (#[trigger] has_bit(r, s) <==> !has_bit(o, s)) by {
                lemma_not_bit(o, s);
            }
        }
        r
    }

    pub open spec fn white_mask_spec(&self) -> u64 {
        self.piece_masks[0] | self.piece_masks[2] | self.piece_masks[4] | self.piece_masks[6]
            | self.piece_masks[8] | self.piece_masks[10]
    }

    pub open spec fn black_mask_spec(&self) -> u64 {
        self.piece_masks[1] | self.piece_masks[3] | self.piece_masks[5] | self.piece_masks[7]
            | self.piece_masks[9] | self.piece_masks[11]
    }

    /// The squares that hold a white piece.
    pub fn white_mask(&self) -> (r: u64)
        requires
            self.wf(),
        ensures
            r == self.white_mask_spec(),
            forall|s: u64| s < 64 ==> (#[trigger] has_bit(r, s) <==> (self.squares@[s as int] != ColoredPiece::Empty
                && self.squares@[s as int].spec_side() == Side::White)),
    {
        let r = self.piece_masks[0] | self.piece_masks[2] | self.piece_masks[4] | self.piece_masks[6]
            | self.piece_masks[8] | self.piece_masks[10];
        proof {
            assert forall|s: u64| s < 64 implies (#[trigger] has_bit(r, s) <==> (self.squares@[s as int]
                != ColoredPiece::Empty && self.squares@[s as int].spec_side() == Side::White)) by {
                let m = self.piece_masks;
                lemma_or6_bit(m[0], m[2], m[4], m[6], m[8], m[10], s);
                assert(has_bit(m[0], s) == has_bit(self.piece_masks@[0], s));
                assert(has_bit(self.piece_masks@[0], s) <==> self.squares@[s as int].spec_index() == 0);
                assert(has_bit(self.piece_masks@[2], s) <==> self.squares@[s as int].spec_index() == 2);
                assert(has_bit(self.piece_masks@[4], s) <==> self.squares@[s as int].spec_index() == 4);
                assert(has_bit(self.piece_masks@[6], s) <==> self.squares@[s as int].spec_index() == 6);
                assert(has_bit(self.piece_masks@[8], s) <==> self.squares@[s as int].spec_index() == 8);
                assert(has_bit(self.piece_masks@[10], s) <==> self.squares@[s as int].spec_index() == 10);
            }
        }
        r
    }

    /// The squares that hold a black piece.
    pub fn black_mask(&self) -> (r: u64)
        requires
            self.wf(),
        ensures
            r == self.black_mask_spec(),
            forall|s: u64| s < 64 ==> (#[trigger] has_bit(r, s) <==> self.squares@[s as int].spec_side() == Side::Black),
    {
        let r = self.piece_masks[1] | self.piece_masks[3] | self.piece_masks[5] | self.piece_masks[7]
            | self.piece_masks[9] | self.piece_masks[11];
        proof {
            assert forall|s: u64| s < 64 implies (#[trigger] has_bit(r, s) <==> self.squares@[s as int].spec_side()
                == Side::Black) by {
                let m = self.piece_masks;
                lemma_or6_bit(m[1], m[3], m[5], m[7], m[9], m[11], s);
                assert(has_bit(self.piece_masks@[1], s) <==> self.squares@[s as int].spec_index() == 1);
                assert(has_bit(self.piece_masks@[3], s) <==> self.squares@[s as int].spec_index() == 3);
                assert(has_bit(self.piece_masks@[5], s) <==> self.squares@[s as int].spec_index() == 5);
                assert(has_bit(self.piece_masks@[7], s) <==> self.squares@[s as int].spec_index() == 7);
                assert(has_bit(self.piece_masks@[9], s) <==> self.squares@[s as int].spec_index() == 9);
                assert(has_bit(self.piece_masks@[11], s) <==> self.squares@[s as int].spec_index() == 11);
            }
        }
        r
    }

    /// The squares that hold `piece`; for `Empty`, the empty squares.
    pub fn piece_mask(&self, piece: ColoredPiece) -> (r: u64)
        requires
            self.wf(),
        ensures
            forall|s: u64| s < 64 ==> (#[trigger] has_bit(r, s) <==> self.squares@[s as int] == piece),
            piece != ColoredPiece::Empty ==> r == self.piece_masks@[piece.spec_index()],
    {
        let k = piece.index();
        if k < 12 {
            proof {
                assert forall|s: u64| s < 64 implies (#[trigger] has_bit(self.piece_masks@[k as int], s)
                    <==> self.squares@[s as int] == piece) by {
                    lemma_index_injective(self.squares@[s as int], piece);
                }
            }
            self.piece_masks[k]
        } else {
            self.empty_mask()
        }
    }

    /// The piece on `sq`.
    pub fn piece_on(&self, sq: Square) -> (r: ColoredPiece)
        ensures
            r == self.squares@[sq.spec_offset()],
    {
        self.squares[sq.offset() as usize]
    }
}

impl Default for Position {
    /// The empty board, white to move, no castle rights, clocks at their start.
    fn default() -> (r: Self)
        ensures
            r.wf(),
            forall|s: int| 0 <= s < 64 ==> #[trigger] r.squares@[s] == ColoredPiece::Empty,
            r.side == Side::White,
            r.fullmove_count == 1,
            r.halfmove_clock == Some(0u8),
            r.castle_rights == CastlePermissions::NoRights,
            r.enpassant_square.is_none(),
    {
        let r = Position {
            side: Side::White,
            fullmove_count: 1,
            halfmove_clock: Some(0),
            castle_rights: CastlePermissions::NoRights,
            enpassant_square: None,
            squares: [ColoredPiece::Empty; 64],
            piece_masks: [0u64; 12],
        };
        proof {
            assert forall|s: u64, k: int| s < 64 && 0 <= k < 12 implies (#[trigger] has_bit(r.piece_masks@[k], s)
                <==> r.squares@[s as int].spec_index() == k) by {
                lemma_zero_bit(s);
            }
        }
        r
    }
}

/// Two colored pieces with the same index are the same piece.
pub proof fn lemma_index_injective(a: ColoredPiece, b: ColoredPiece)
    ensures
        a.spec_index() == b.spec_index() <==> a == b,
{
}

/// No square is set in the empty bitboard.
pub proof fn lemma_zero_bit(s: u64)
    ensures
        !has_bit(0u64, s),
{
    assert(!has_bit(0u64, s)) by (bit_vector);
}

/// A square is set in a union when it is set in either part.
pub proof fn lemma_or_bit(a: u64, b: u64, s: u64)
    ensures
        has_bit(a | b, s) == (has_bit(a, s) || has_bit(b, s)),
{
    assert(has_bit(a | b, s) == (has_bit(a, s) || has_bit(b, s))) by (bit_vector);
}

/// A square is set in a complement when it is not set in the bitboard itself.
pub proof fn lemma_not_bit(a: u64, s: u64)
    requires
        s < 64,
    ensures
        has_bit(!a, s) == !has_bit(a, s),
{
    assert(has_bit(!a, s) == !has_bit(a, s)) by (bit_vector)
        requires
            s < 64,
    ;
}

proof fn lemma_or6_bit(a: u64, b: u64, c: u64, d: u64, e: u64, f: u64, s: u64)
    ensures
        has_bit(a | b | c | d | e | f, s) == (has_bit(a, s) || has_bit(b, s) || has_bit(c, s) || has_bit(d, s)
            || has_bit(e, s) || has_bit(f, s)),
{
    lemma_or_bit(a, b, s);
    lemma_or_bit(a | b, c, s);
    lemma_or_bit(a | b | c, d, s);
    lemma_or_bit(a | b | c | d, e, s);
    lemma_or_bit(a | b | c | d | e, f, s);
}

} // verus!
