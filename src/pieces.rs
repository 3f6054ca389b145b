//! Piece kinds, and pieces colored by the side that owns them.
use vstd::prelude::*;

use crate::side::Side;

verus! {

/// A piece that belongs to a side, or the absence of a piece.
#[derive(PartialEq, Eq, Structural, Hash, Copy, Clone, Debug)]
pub enum ColoredPiece {
    WPawn,
    BPawn,
    WBishop,
    BBishop,
    WRook,
    BRook,
    WKing,
    BKing,
    WKnight,
    BKnight,
    WQueen,
    BQueen,
    Empty,
}

/// A kind of piece without an owner, or the absence of a piece.
#[derive(PartialEq, Eq, Structural, Ord, PartialOrd, Hash, Copy, Clone, Debug)]
pub enum Piece {
    Pawn,
    Bishop,
    Rook,
    King,
    Knight,
    Queen,
    Empty,
}

impl Default for Piece {
    fn default() -> (r: Self)
        ensures
            r == Piece::Empty,
    {
        Piece::Empty
    }
}

impl Default for ColoredPiece {
    fn default() -> (r: Self)
        ensures
            r == ColoredPiece::Empty,
    {
        ColoredPiece::Empty
    }
}

impl Piece {
    /// Number of real piece kinds.
    pub const COUNT: usize = 6;

    /// The piece of this kind that belongs to `side`; `Empty` stays `Empty`.
    pub open spec fn spec_color(self, side: Side) -> ColoredPiece {
        let white = side == Side::White;
        match self {
            Piece::Pawn => if white { ColoredPiece::WPawn } else { ColoredPiece::BPawn },
            Piece::Bishop => if white { ColoredPiece::WBishop } else { ColoredPiece::BBishop },
            Piece::Rook => if white { ColoredPiece::WRook } else { ColoredPiece::BRook },
            Piece::King => if white { ColoredPiece::WKing } else { ColoredPiece::BKing },
            Piece::Knight => if white { ColoredPiece::WKnight } else { ColoredPiece::BKnight },
            Piece::Queen => if white { ColoredPiece::WQueen } else { ColoredPiece::BQueen },
            Piece::Empty => ColoredPiece::Empty,
        }
    }

    /// The six real piece kinds.
    pub fn pieces() -> (r: Vec<Piece>)
        ensures
            r@ == seq![Piece::Pawn, Piece::Bishop, Piece::Rook, Piece::King, Piece::Knight, Piece::Queen],
    {
        vec![Piece::Pawn, Piece::Bishop, Piece::Rook, Piece::King, Piece::Knight, Piece::Queen]
    }

    /// Color the piece so that it belongs to `side`; there is no colored
    /// form of `Empty`.
    pub fn color(self, side: Side) -> (r: ColoredPiece)
        requires
            self != Piece::Empty,
        ensures
            r == self.spec_color(side),
            r != ColoredPiece::Empty,
            r.spec_uncolor() == self,
            r.spec_side() == side,
    {
        let white = match side {
            Side::White => true,
            Side::Black => false,
        };
        match self {
            Piece::Pawn => if white { ColoredPiece::WPawn } else { ColoredPiece::BPawn },
            Piece::Bishop => if white { ColoredPiece::WBishop } else { ColoredPiece::BBishop },
            Piece::Rook => if white { ColoredPiece::WRook } else { ColoredPiece::BRook },
            Piece::King => if white { ColoredPiece::WKing } else { ColoredPiece::BKing },
            Piece::Knight => if white { ColoredPiece::WKnight } else { ColoredPiece::BKnight },
            Piece::Queen => if white { ColoredPiece::WQueen } else { ColoredPiece::BQueen },
            Piece::Empty => ColoredPiece::Empty,
        }
    }

    /// The kind of piece a FEN letter stands for, in either case; the letter
    /// must be one of `PBRKNQ` or `pbrknq`.
    pub fn from_char(c: char) -> (r: Piece)
        requires
            piece_of_char(c) != ColoredPiece::Empty,
        ensures
            r == piece_of_char(c).spec_uncolor(),
    {
        match c {
            'P' | 'p' => Piece::Pawn,
            'B' | 'b' => Piece::Bishop,
            'R' | 'r' => Piece::Rook,
            'K' | 'k' => Piece::King,
            'N' | 'n' => Piece::Knight,
            _ => Piece::Queen,
        }
    }

    /// The lowercase letter of the piece kind; `.` for none.
    pub fn to_ascii(self) -> (r: char)
        ensures
            r == self.spec_color(Side::Black).spec_to_ascii(),
    {
        match self {
            Piece::Pawn => 'p',
            Piece::Bishop => 'b',
            Piece::Rook => 'r',
            Piece::King => 'k',
            Piece::Knight => 'n',
            Piece::Queen => 'q',
            Piece::Empty => '.',
        }
    }
}

impl ColoredPiece {
    /// Number of real colored pieces.
    pub const COUNT: usize = 12;

    /// The side that owns the piece (white for `Empty`, which has no owner).
    pub open spec fn spec_side(self) -> Side {
        match self {
            ColoredPiece::BPawn | ColoredPiece::BBishop | ColoredPiece::BRook | ColoredPiece::BKing
            | ColoredPiece::BKnight | ColoredPiece::BQueen => Side::Black,
            _ => Side::White,
        }
    }

    /// The kind of the piece without its owner.
    pub open spec fn spec_uncolor(self) -> Piece {
        match self {
            ColoredPiece::WPawn | ColoredPiece::BPawn => Piece::Pawn,
            ColoredPiece::WBishop | ColoredPiece::BBishop => Piece::Bishop,
            ColoredPiece::WRook | ColoredPiece::BRook => Piece::Rook,
            ColoredPiece::WKing | ColoredPiece::BKing => Piece::King,
            ColoredPiece::WKnight | ColoredPiece::BKnight => Piece::Knight,
            ColoredPiece::WQueen | ColoredPiece::BQueen => Piece::Queen,
            ColoredPiece::Empty => Piece::Empty,
        }
    }

    /// The slot of the piece in a table of per-piece bitboards; 12 for `Empty`.
    pub open spec fn spec_index(self) -> int {
        match self {
            ColoredPiece::WPawn => 0,
            ColoredPiece::BPawn => 1,
            ColoredPiece::WBishop => 2,
            ColoredPiece::BBishop => 3,
            ColoredPiece::WRook => 4,
            ColoredPiece::BRook => 5,
            ColoredPiece::WKing => 6,
            ColoredPiece::BKing => 7,
            ColoredPiece::WKnight => 8,
            ColoredPiece::BKnight => 9,
            ColoredPiece::WQueen => 10,
            ColoredPiece::BQueen => 11,
            ColoredPiece::Empty => 12,
        }
    }

    /// The FEN letter of the piece: uppercase for white, lowercase for black, `.` for none.
    pub open spec fn spec_to_ascii(self) -> char {
        match self {
            ColoredPiece::WPawn => 'P',
            ColoredPiece::BPawn => 'p',
            ColoredPiece::WBishop => 'B',
            ColoredPiece::BBishop => 'b',
            ColoredPiece::WRook => 'R',
            ColoredPiece::BRook => 'r',
            ColoredPiece::WKing => 'K',
            ColoredPiece::BKing => 'k',
            ColoredPiece::WKnight => 'N',
            ColoredPiece::BKnight => 'n',
            ColoredPiece::WQueen => 'Q',
            ColoredPiece::BQueen => 'q',
            ColoredPiece::Empty => '.',
        }
    }

    /// The twelve real colored pieces.
    pub fn colored_pieces() -> (r: Vec<ColoredPiece>)
        ensures
            r@.len() == 12,
            forall|i: int| 0 <= i < 12 ==> (#[trigger] r@[i]).spec_index() == i,
    {
        vec![
            ColoredPiece::WPawn,
            ColoredPiece::BPawn,
            ColoredPiece::WBishop,
            ColoredPiece::BBishop,
            ColoredPiece::WRook,
            ColoredPiece::BRook,
            ColoredPiece::WKing,
            ColoredPiece::BKing,
            ColoredPiece::WKnight,
            ColoredPiece::BKnight,
            ColoredPiece::WQueen,
            ColoredPiece::BQueen,
        ]
    }

    /// The side of a piece; an `Empty` piece has no side.
    pub fn side(self) -> (r: Side)
        requires
            self != ColoredPiece::Empty,
        ensures
            r == self.spec_side(),
    {
        match self {
            ColoredPiece::BPawn | ColoredPiece::BBishop | ColoredPiece::BRook | ColoredPiece::BKing
            | ColoredPiece::BKnight | ColoredPiece::BQueen => Side::Black,
            _ => Side::White,
        }
    }

    /// Remove the owner of the piece, keeping its kind; `Empty` has no kind.
    pub fn uncolor(self) -> (r: Piece)
        requires
            self != ColoredPiece::Empty,
        ensures
            r == self.spec_uncolor(),
            r != Piece::Empty,
            r.spec_color(self.spec_side()) == self,
    {
        match self {
            ColoredPiece::WPawn | ColoredPiece::BPawn => Piece::Pawn,
            ColoredPiece::WBishop | ColoredPiece::BBishop => Piece::Bishop,
            ColoredPiece::WRook | ColoredPiece::BRook => Piece::Rook,
            ColoredPiece::WKing | ColoredPiece::BKing => Piece::King,
            ColoredPiece::WKnight | ColoredPiece::BKnight => Piece::Knight,
            ColoredPiece::WQueen | ColoredPiece::BQueen => Piece::Queen,
            ColoredPiece::Empty => Piece::Empty,
        }
    }

    /// The slot of the piece in a table of per-piece bitboards; 12 for `Empty`.
    pub fn index(self) -> (r: usize)
        ensures
            r == self.spec_index(),
            r <= 12,
            r == 12 <==> self == ColoredPiece::Empty,
    {
        match self {
            ColoredPiece::WPawn => 0,
            ColoredPiece::BPawn => 1,
            ColoredPiece::WBishop => 2,
            ColoredPiece::BBishop => 3,
            ColoredPiece::WRook => 4,
            ColoredPiece::BRook => 5,
            ColoredPiece::WKing => 6,
            ColoredPiece::BKing => 7,
            ColoredPiece::WKnight => 8,
            ColoredPiece::BKnight => 9,
            ColoredPiece::WQueen => 10,
            ColoredPiece::BQueen => 11,
            ColoredPiece::Empty => 12,
        }
    }

    /// The FEN letter of the piece.
    pub fn to_ascii(self) -> (r: char)
        ensures
            r == self.spec_to_ascii(),
    {
        match self {
            ColoredPiece::WPawn => 'P',
            ColoredPiece::BPawn => 'p',
            ColoredPiece::WBishop => 'B',
            ColoredPiece::BBishop => 'b',
            ColoredPiece::WRook => 'R',
            ColoredPiece::BRook => 'r',
            ColoredPiece::WKing => 'K',
            ColoredPiece::BKing => 'k',
            ColoredPiece::WKnight => 'N',
            ColoredPiece::BKnight => 'n',
            ColoredPiece::WQueen => 'Q',
            ColoredPiece::BQueen => 'q',
            ColoredPiece::Empty => '.',
        }
    }
}

/// The piece that a FEN letter stands for; `Empty` for any other character.
pub open spec fn piece_of_char(c: char) -> ColoredPiece {
    if c == 'P' {
        ColoredPiece::WPawn
    } else if c == 'B' {
        ColoredPiece::WBishop
    } else if c == 'R' {
        ColoredPiece::WRook
    } else if c == 'K' {
        ColoredPiece::WKing
    } else if c == 'N' {
        ColoredPiece::WKnight
    } else if c == 'Q' {
        ColoredPiece::WQueen
    } else if c == 'p' {
        ColoredPiece::BPawn
    } else if c == 'b' {
        ColoredPiece::BBishop
    } else if c == 'r' {
        ColoredPiece::BRook
    } else if c == 'k' {
        ColoredPiece::BKing
    } else if c == 'n' {
        ColoredPiece::BKnight
    } else if c == 'q' {
        ColoredPiece::BQueen
    } else {
        ColoredPiece::Empty
    }
}

/// Reading a FEN letter gives back the piece that wrote it.
pub proof fn lemma_piece_char_round_trip(p: ColoredPiece)
    requires
        p != ColoredPiece::Empty,
    ensures
        piece_of_char(p.spec_to_ascii()) == p,
{
}

impl From<char> for ColoredPiece {
    fn from(c: char) -> (r: ColoredPiece) {
        match c {
            'P' => ColoredPiece::WPawn,
            'B' => ColoredPiece::WBishop,
            'R' => ColoredPiece::WRook,
            'K' => ColoredPiece::WKing,
            'N' => ColoredPiece::WKnight,
            'Q' => ColoredPiece::WQueen,
            'p' => ColoredPiece::BPawn,
            'b' => ColoredPiece::BBishop,
            'r' => ColoredPiece::BRook,
            'k' => ColoredPiece::BKing,
            'n' => ColoredPiece::BKnight,
            'q' => ColoredPiece::BQueen,
            _ => ColoredPiece::Empty,
        }
    }
}

impl vstd::std_specs::convert::FromSpecImpl<char> for ColoredPiece {
    open spec fn obeys_from_spec() -> bool {
        true
    }

    open spec fn from_spec(c: char) -> ColoredPiece {
        piece_of_char(c)
    }
}

} // verus!
