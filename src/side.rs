//! The two sides.
use vstd::prelude::*;

use crate::errors::InvalidSideError;

verus! {

/// The side to move, or the owner of a piece.
#[derive(PartialEq, Eq, Structural, Copy, Clone, Debug)]
pub enum Side {
    White,
    Black,
}

impl Side {
    pub const WHITE: Side = Side::White;

    pub const BLACK: Side = Side::Black;

    /// Number of sides.
    pub const COUNT: usize = 2;

    /// The other side.
    pub open spec fn spec_opposite(self) -> Side {
        match self {
            Side::White => Side::Black,
            Side::Black => Side::White,
        }
    }

    /// The other side; an involution.
    pub fn opposite(&self) -> (r: Self)
        ensures
            r == self.spec_opposite(),
            r != *self,
            r.spec_opposite() == *self,
    {
        match self {
            Side::White => Side::Black,
            Side::Black => Side::White,
        }
    }

    /// Index of the side in per-side tables: 0 for white, 1 for black.
    pub fn index(&self) -> (r: usize)
        ensures
            r == (if *self == Side::Black { 1usize } else { 0usize }),
    {
        match self {
            Side::White => 0,
            Side::Black => 1,
        }
    }

    /// The FEN letter of the side: `w` or `b`.
    pub fn to_char(&self) -> (r: char)
        ensures
            r == side_char(*self),
    {
        match self {
            Side::White => 'w',
            Side::Black => 'b',
        }
    }

    /// Reads a side from its FEN letter: `w` or `b`, lowercase.
    pub fn parse(s: &str) -> (r: Result<Side, InvalidSideError>)
        ensures
            match r {
                Ok(side) => s@ == seq![side_char(side)],
                Err(_) => s@ != seq!['w'] && s@ != seq!['b'],
            },
    {
        if s.unicode_len() == 1 {
            let c = s.get_char(0);
            if c == 'w' {
                proof {
                    assert(s@ =~= seq![side_char(Side::White)]);
                }
                return Ok(Side::White);
            } else if c == 'b' {
                proof {
                    assert(s@ =~= seq![side_char(Side::Black)]);
                }
                return Ok(Side::Black);
            }
        }
        Err(InvalidSideError)
    }

    /// The lowercase name of the side.
    pub fn name(&self) -> (r: String)
        ensures
            r@ == (if *self == Side::White { "white"@ } else { "black"@ }),
    {
        match self {
            Side::White => String::from_str("white"),
            Side::Black => String::from_str("black"),
        }
    }
}

/// The FEN letter of a side.
pub open spec fn side_char(s: Side) -> char {
    match s {
        Side::White => 'w',
        Side::Black => 'b',
    }
}

} // verus!
