//! Castle rights as a four-bit set.
use vstd::prelude::*;

use crate::errors::InvalidCastlesError;
use crate::square::push_char;

verus! {

/// A set of castle rights, one bit each: white king side 1, white queen side 2,
/// black king side 4, black queen side 8.
#[derive(PartialEq, Eq, Structural, Copy, Clone, Debug)]
pub enum CastlePermissions {
    NoRights,
    WhiteKing,
    WhiteQueen,
    WhiteAll,
    BlackKing,
    BothKings,
    WhiteQueenBlackKing,
    WhiteAllBlackKing,
    BlackQueen,
    WhiteKingBlackQueen,
    BothQueens,
    WhiteAllBlackQueen,
    BlackAll,
    BlackAllWhiteKing,
    BlackAllWhiteQueen,
    All,
}

/// Squares between king and rook that must be empty to castle white king side.
pub const WHITE_KING_CLEAR: u64 = 0x60;

/// Squares between king and rook that must be empty to castle white queen side.
pub const WHITE_QUEEN_CLEAR: u64 = 0xe;

/// Squares between king and rook that must be empty to castle black king side.
pub const BLACK_KING_CLEAR: u64 = 0x6000000000000000;

/// Squares between king and rook that must be empty to castle black queen side.
pub const BLACK_QUEEN_CLEAR: u64 = 0xe00000000000000;

/// The FEN text of a set of rights given by its bits: the held rights in the
/// order `KQkq`, or `-` when none is held.
pub open spec fn castle_text(b: u8) -> Seq<char> {
    if b & 15 == 0 {
        seq!['-']
    } else {
        (if b & 1 != 0 { seq!['K'] } else { Seq::<char>::empty() })
            + (if b & 2 != 0 { seq!['Q'] } else { Seq::<char>::empty() })
            + (if b & 4 != 0 { seq!['k'] } else { Seq::<char>::empty() })
            + (if b & 8 != 0 { seq!['q'] } else { Seq::<char>::empty() })
    }
}

impl CastlePermissions {
    pub const NONE: CastlePermissions = CastlePermissions::NoRights;

    pub const WHITE_KING: CastlePermissions = CastlePermissions::WhiteKing;

    pub const WHITE_QUEEN: CastlePermissions = CastlePermissions::WhiteQueen;

    pub const WHITE_ALL: CastlePermissions = CastlePermissions::WhiteAll;

    pub const BLACK_KING: CastlePermissions = CastlePermissions::BlackKing;

    pub const BOTH_KINGS: CastlePermissions = CastlePermissions::BothKings;

    pub const WHITE_QUEEN_BLACK_KING: CastlePermissions = CastlePermissions::WhiteQueenBlackKing;

    pub const WHITE_ALL_BLACK_KING: CastlePermissions = CastlePermissions::WhiteAllBlackKing;

    pub const BLACK_QUEEN: CastlePermissions = CastlePermissions::BlackQueen;

    pub const WHITE_KING_BLACK_QUEEN: CastlePermissions = CastlePermissions::WhiteKingBlackQueen;

    pub const BOTH_QUEENS: CastlePermissions = CastlePermissions::BothQueens;

    pub const WHITE_ALL_BLACK_QUEEN: CastlePermissions = CastlePermissions::WhiteAllBlackQueen;

    pub const BLACK_ALL: CastlePermissions = CastlePermissions::BlackAll;

    pub const BLACK_ALL_WHITE_KING: CastlePermissions = CastlePermissions::BlackAllWhiteKing;

    pub const BLACK_ALL_WHITE_QUEEN: CastlePermissions = CastlePermissions::BlackAllWhiteQueen;

    pub const ALL: CastlePermissions = CastlePermissions::All;

    /// Number of distinct sets of rights.
    pub const COUNT: usize = 16;

    /// The bits of the set.
    pub open spec fn spec_bits(self) -> u8 {
        match self {
            CastlePermissions::NoRights => 0,
            CastlePermissions::WhiteKing => 1,
            CastlePermissions::WhiteQueen => 2,
            CastlePermissions::WhiteAll => 3,
            CastlePermissions::BlackKing => 4,
            CastlePermissions::BothKings => 5,
            CastlePermissions::WhiteQueenBlackKing => 6,
            CastlePermissions::WhiteAllBlackKing => 7,
            CastlePermissions::BlackQueen => 8,
            CastlePermissions::WhiteKingBlackQueen => 9,
            CastlePermissions::BothQueens => 10,
            CastlePermissions::WhiteAllBlackQueen => 11,
            CastlePermissions::BlackAll => 12,
            CastlePermissions::BlackAllWhiteKing => 13,
            CastlePermissions::BlackAllWhiteQueen => 14,
            CastlePermissions::All => 15,
        }
    }

    /// The set whose bits are `b`.
    pub open spec fn spec_from_bits(b: u8) -> CastlePermissions {
        choose|c: CastlePermissions| c.spec_bits() == b
    }

    /// The bits of the set, below 16.
    pub fn bits(&self) -> (r: u8)
        ensures
            r == self.spec_bits(),
            r < 16,
    {
        match self {
            CastlePermissions::NoRights => 0u8,
            CastlePermissions::WhiteKing => 1u8,
            CastlePermissions::WhiteQueen => 2u8,
            CastlePermissions::WhiteAll => 3u8,
            CastlePermissions::BlackKing => 4u8,
            CastlePermissions::BothKings => 5u8,
            CastlePermissions::WhiteQueenBlackKing => 6u8,
            CastlePermissions::WhiteAllBlackKing => 7u8,
            CastlePermissions::BlackQueen => 8u8,
            CastlePermissions::WhiteKingBlackQueen => 9u8,
            CastlePermissions::BothQueens => 10u8,
            CastlePermissions::WhiteAllBlackQueen => 11u8,
            CastlePermissions::BlackAll => 12u8,
            CastlePermissions::BlackAllWhiteKing => 13u8,
            CastlePermissions::BlackAllWhiteQueen => 14u8,
            CastlePermissions::All => 15u8,
        }
    }

    /// The set whose bits are `b`.
    pub fn from_bits(b: u8) -> (r: CastlePermissions)
        requires
            b < 16,
        ensures
            r.spec_bits() == b,
    {
        match b {
            0 => CastlePermissions::NoRights,
            1 => CastlePermissions::WhiteKing,
            2 => CastlePermissions::WhiteQueen,
            3 => CastlePermissions::WhiteAll,
            4 => CastlePermissions::BlackKing,
            5 => CastlePermissions::BothKings,
            6 => CastlePermissions::WhiteQueenBlackKing,
            7 => CastlePermissions::WhiteAllBlackKing,
            8 => CastlePermissions::BlackQueen,
            9 => CastlePermissions::WhiteKingBlackQueen,
            10 => CastlePermissions::BothQueens,
            11 => CastlePermissions::WhiteAllBlackQueen,
            12 => CastlePermissions::BlackAll,
            13 => CastlePermissions::BlackAllWhiteKing,
            14 => CastlePermissions::BlackAllWhiteQueen,
            15 => CastlePermissions::All,
            _ => CastlePermissions::All,
        }
    }

    /// Whether every right of `other` is in this set.
    pub fn contains(&self, other: Self) -> (r: bool)
        ensures
            r == (self.spec_bits() & other.spec_bits() == other.spec_bits()),
    {
        self.bits() & other.bits() == other.bits()
    }

    /// Takes the rights of `other` out of this set.
    pub fn remove(&mut self, other: Self)
        ensures
            final(self).spec_bits() == old(self).spec_bits() & !other.spec_bits(),
    {
        let a = self.bits();
        let b = other.bits();
        assert(a & !b < 16) by (bit_vector)
            requires
                a < 16,
        ;
        *self = CastlePermissions::from_bits(a & !b);
    }

    /// Adds the rights of `other` to this set.
    pub fn insert(&mut self, other: Self)
        ensures
            final(self).spec_bits() == old(self).spec_bits() | other.spec_bits(),
    {
        let a = self.bits();
        let b = other.bits();
        assert(a | b < 16) by (bit_vector)
            requires
                a < 16,
                b < 16,
        ;
        *self = CastlePermissions::from_bits(a | b);
    }

    /// Whether this set and `other` share a right.
    pub fn intersects(&self, other: Self) -> (r: bool)
        ensures
            r == (self.spec_bits() & other.spec_bits() != 0),
    {
        self.bits() & other.bits() != 0
    }

    /// The rights held in both sets.
    pub fn intersection(&self, other: Self) -> (r: Self)
        ensures
            r.spec_bits() == self.spec_bits() & other.spec_bits(),
    {
        let a = self.bits();
        let b = other.bits();
        assert(a & b < 16) by (bit_vector)
            requires
                a < 16,
        ;
        CastlePermissions::from_bits(a & b)
    }

    /// The squares that must be empty for each castle in this set, together.
    pub fn required_clear_mask(&self) -> (r: u64)
        ensures
            r == (if self.spec_bits() & 1 != 0 { WHITE_KING_CLEAR } else { 0 })
                | (if self.spec_bits() & 2 != 0 { WHITE_QUEEN_CLEAR } else { 0 })
                | (if self.spec_bits() & 4 != 0 { BLACK_KING_CLEAR } else { 0 })
                | (if self.spec_bits() & 8 != 0 { BLACK_QUEEN_CLEAR } else { 0 }),
    {
        let b = self.bits();
        let wk: u64 = if b & 1 != 0 { WHITE_KING_CLEAR } else { 0 };
        let wq: u64 = if b & 2 != 0 { WHITE_QUEEN_CLEAR } else { 0 };
        let bk: u64 = if b & 4 != 0 { BLACK_KING_CLEAR } else { 0 };
        let bq: u64 = if b & 8 != 0 { BLACK_QUEEN_CLEAR } else { 0 };
        wk | wq | bk | bq
    }

    /// The FEN text of the set: the held rights in the order `KQkq`, or `-`.
    pub fn to_fen(&self) -> (r: String)
        ensures
            r@ == castle_text(self.spec_bits()),
    {
        castle_string(self.bits())
    }

    /// Reads a set of rights from its FEN text, which must be `-` or the held
    /// rights in the order `KQkq`.
    pub fn parse(s: &str) -> (r: Result<CastlePermissions, InvalidCastlesError>)
        ensures
            match r {
                Ok(c) => castle_text(c.spec_bits()) == s@,
                Err(_) => forall|b: u8| b < 16 ==> castle_text(b) != s@,
            },
    {
        let owned = s.to_owned();
        let mut b: u8 = 0;
        while b < 16
            invariant
                b <= 16,
                owned@ == s@,
                forall|c: u8| c < b ==> castle_text(c) != s@,
            decreases 16 - b,
        {
            let text = castle_string(b);
            if text == owned {
                return Ok(CastlePermissions::from_bits(b));
            }
            b = b + 1;
        }
        Err(InvalidCastlesError)
    }
}

impl Default for CastlePermissions {
    fn default() -> (r: Self)
        ensures
            r == CastlePermissions::NoRights,
    {
        CastlePermissions::NoRights
    }
}

/// The FEN text of the rights with bits `b`.
fn castle_string(b: u8) -> (r: String)
    ensures
        r@ == castle_text(b),
{
    let mut s = String::new();
    if b & 15 == 0 {
        push_char(&mut s, '-');
    } else {
        if b & 1 != 0 {
            push_char(&mut s, 'K');
        }
        if b & 2 != 0 {
            push_char(&mut s, 'Q');
        }
        if b & 4 != 0 {
            push_char(&mut s, 'k');
        }
        if b & 8 != 0 {
            push_char(&mut s, 'q');
        }
        assert(s@ =~= castle_text(b));
    }
    s
}

} // verus!
