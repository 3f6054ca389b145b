//! Squares, numbered rank-major from a1 = 0 to h8 = 63, and their names.
use vstd::prelude::*;

use crate::errors::SquareParseError;

pub mod masks;
pub mod named;

verus! {

/// A square of the board, numbered rank-major from a1 = 0 to h8 = 63.
#[derive(PartialEq, Eq, Structural, PartialOrd, Ord, Hash, Copy, Clone, Debug)]
pub enum Square {
    A1,
    B1,
    C1,
    D1,
    E1,
    F1,
    G1,
    H1,
    A2,
    B2,
    C2,
    D2,
    E2,
    F2,
    G2,
    H2,
    A3,
    B3,
    C3,
    D3,
    E3,
    F3,
    G3,
    H3,
    A4,
    B4,
    C4,
    D4,
    E4,
    F4,
    G4,
    H4,
    A5,
    B5,
    C5,
    D5,
    E5,
    F5,
    G5,
    H5,
    A6,
    B6,
    C6,
    D6,
    E6,
    F6,
    G6,
    H6,
    A7,
    B7,
    C7,
    D7,
    E7,
    F7,
    G7,
    H7,
    A8,
    B8,
    C8,
    D8,
    E8,
    F8,
    G8,
    H8,
}

/// The bitboard with the single bit `o` set.
pub open spec fn bit_mask(o: int) -> u64 {
    (1u64 << (o as u64)) as u64
}

/// The file letter `a`..`h` of a file number 0..7.
pub open spec fn file_char(x: int) -> char {
    (('a' as int) + x) as char
}

/// The rank digit `1`..`8` of a rank number 0..7.
pub open spec fn rank_char(y: int) -> char {
    (('1' as int) + y) as char
}

/// The UCI name of the square with offset `o`: its file letter, then its rank digit.
pub open spec fn square_name(o: int) -> Seq<char> {
    seq![file_char(o % 8), rank_char(o / 8)]
}

impl Square {
    /// Number of squares.
    pub const COUNT: usize = 64;

    /// The offset of the square: 8 * rank + file.
    pub open spec fn spec_offset(self) -> int {
        match self {
            Square::A1 => 0,
            Square::B1 => 1,
            Square::C1 => 2,
            Square::D1 => 3,
            Square::E1 => 4,
            Square::F1 => 5,
            Square::G1 => 6,
            Square::H1 => 7,
            Square::A2 => 8,
            Square::B2 => 9,
            Square::C2 => 10,
            Square::D2 => 11,
            Square::E2 => 12,
            Square::F2 => 13,
            Square::G2 => 14,
            Square::H2 => 15,
            Square::A3 => 16,
            Square::B3 => 17,
            Square::C3 => 18,
            Square::D3 => 19,
            Square::E3 => 20,
            Square::F3 => 21,
            Square::G3 => 22,
            Square::H3 => 23,
            Square::A4 => 24,
            Square::B4 => 25,
            Square::C4 => 26,
            Square::D4 => 27,
            Square::E4 => 28,
            Square::F4 => 29,
            Square::G4 => 30,
            Square::H4 => 31,
            Square::A5 => 32,
            Square::B5 => 33,
            Square::C5 => 34,
            Square::D5 => 35,
            Square::E5 => 36,
            Square::F5 => 37,
            Square::G5 => 38,
            Square::H5 => 39,
            Square::A6 => 40,
            Square::B6 => 41,
            Square::C6 => 42,
            Square::D6 => 43,
            Square::E6 => 44,
            Square::F6 => 45,
            Square::G6 => 46,
            Square::H6 => 47,
            Square::A7 => 48,
            Square::B7 => 49,
            Square::C7 => 50,
            Square::D7 => 51,
            Square::E7 => 52,
            Square::F7 => 53,
            Square::G7 => 54,
            Square::H7 => 55,
            Square::A8 => 56,
            Square::B8 => 57,
            Square::C8 => 58,
            Square::D8 => 59,
            Square::E8 => 60,
            Square::F8 => 61,
            Square::G8 => 62,
            Square::H8 => 63,
        }
    }

    /// The file of the square, 0 for the A file.
    pub open spec fn spec_x(self) -> int {
        self.spec_offset() % 8
    }

    /// The rank of the square, 0 for the first rank.
    pub open spec fn spec_y(self) -> int {
        self.spec_offset() / 8
    }

    /// The square at an offset.
    pub fn new(offset: u8) -> (r: Square)
        requires
            offset < 64,
        ensures
            r.spec_offset() == offset,
    {
        match offset {
            0 => Square::A1,
            1 => Square::B1,
            2 => Square::C1,
            3 => Square::D1,
            4 => Square::E1,
            5 => Square::F1,
            6 => Square::G1,
            7 => Square::H1,
            8 => Square::A2,
            9 => Square::B2,
            10 => Square::C2,
            11 => Square::D2,
            12 => Square::E2,
            13 => Square::F2,
            14 => Square::G2,
            15 => Square::H2,
            16 => Square::A3,
            17 => Square::B3,
            18 => Square::C3,
            19 => Square::D3,
            20 => Square::E3,
            21 => Square::F3,
            22 => Square::G3,
            23 => Square::H3,
            24 => Square::A4,
            25 => Square::B4,
            26 => Square::C4,
            27 => Square::D4,
            28 => Square::E4,
            29 => Square::F4,
            30 => Square::G4,
            31 => Square::H4,
            32 => Square::A5,
            33 => Square::B5,
            34 => Square::C5,
            35 => Square::D5,
            36 => Square::E5,
            37 => Square::F5,
            38 => Square::G5,
            39 => Square::H5,
            40 => Square::A6,
            41 => Square::B6,
            42 => Square::C6,
            43 => Square::D6,
            44 => Square::E6,
            45 => Square::F6,
            46 => Square::G6,
            47 => Square::H6,
            48 => Square::A7,
            49 => Square::B7,
            50 => Square::C7,
            51 => Square::D7,
            52 => Square::E7,
            53 => Square::F7,
            54 => Square::G7,
            55 => Square::H7,
            56 => Square::A8,
            57 => Square::B8,
            58 => Square::C8,
            59 => Square::D8,
            60 => Square::E8,
            61 => Square::F8,
            62 => Square::G8,
            63 => Square::H8,
            _ => Square::H8,
        }
    }

    /// The offset of the square: 8 * rank + file.
    pub fn offset(self) -> (r: u8)
        ensures
            r == self.spec_offset(),
            r < 64,
    {
        match self {
            Square::A1 => 0u8,
            Square::B1 => 1u8,
            Square::C1 => 2u8,
            Square::D1 => 3u8,
            Square::E1 => 4u8,
            Square::F1 => 5u8,
            Square::G1 => 6u8,
            Square::H1 => 7u8,
            Square::A2 => 8u8,
            Square::B2 => 9u8,
            Square::C2 => 10u8,
            Square::D2 => 11u8,
            Square::E2 => 12u8,
            Square::F2 => 13u8,
            Square::G2 => 14u8,
            Square::H2 => 15u8,
            Square::A3 => 16u8,
            Square::B3 => 17u8,
            Square::C3 => 18u8,
            Square::D3 => 19u8,
            Square::E3 => 20u8,
            Square::F3 => 21u8,
            Square::G3 => 22u8,
            Square::H3 => 23u8,
            Square::A4 => 24u8,
            Square::B4 => 25u8,
            Square::C4 => 26u8,
            Square::D4 => 27u8,
            Square::E4 => 28u8,
            Square::F4 => 29u8,
            Square::G4 => 30u8,
            Square::H4 => 31u8,
            Square::A5 => 32u8,
            Square::B5 => 33u8,
            Square::C5 => 34u8,
            Square::D5 => 35u8,
            Square::E5 => 36u8,
            Square::F5 => 37u8,
            Square::G5 => 38u8,
            Square::H5 => 39u8,
            Square::A6 => 40u8,
            Square::B6 => 41u8,
            Square::C6 => 42u8,
            Square::D6 => 43u8,
            Square::E6 => 44u8,
            Square::F6 => 45u8,
            Square::G6 => 46u8,
            Square::H6 => 47u8,
            Square::A7 => 48u8,
            Square::B7 => 49u8,
            Square::C7 => 50u8,
            Square::D7 => 51u8,
            Square::E7 => 52u8,
            Square::F7 => 53u8,
            Square::G7 => 54u8,
            Square::H7 => 55u8,
            Square::A8 => 56u8,
            Square::B8 => 57u8,
            Square::C8 => 58u8,
            Square::D8 => 59u8,
            Square::E8 => 60u8,
            Square::F8 => 61u8,
            Square::G8 => 62u8,
            Square::H8 => 63u8,
        }
    }

    /// The file of the square, 0 for the A file.
    pub fn x(self) -> (r: u8)
        ensures
            r == self.spec_x(),
            r < 8,
    {
        self.offset() % 8
    }

    /// The rank of the square, 0 for the first rank.
    pub fn y(self) -> (r: u8)
        ensures
            r == self.spec_y(),
            r < 8,
    {
        self.offset() / 8
    }

    /// The bitboard that holds this square alone.
    pub fn mask(self) -> (r: u64)
        ensures
            r == bit_mask(self.spec_offset()),
    {
        1u64 << self.offset()
    }

    /// The UCI name of the square, such as `e4`.
    pub fn name(self) -> (r: String)
        ensures
            r@ == square_name(self.spec_offset()),
    {
        let mut s = String::new();
        push_char(&mut s, file_letter(self.x()));
        push_char(&mut s, rank_digit(self.y()));
        s
    }

    /// Reads a square from its UCI name; the text must be a file letter `a`..`h`
    /// followed by a rank digit `1`..`8`.
    pub fn parse(s: &str) -> (r: Result<Square, SquareParseError>)
        ensures
            match r {
                Ok(sq) => s@.len() == 2 && 'a' <= s@[0] <= 'h' && '1' <= s@[1] <= '8'
                    && square_name(sq.spec_offset()) == s@,
                Err(SquareParseError::SquareLengthError(t)) => s@.len() != 2 && t@ == s@,
                Err(SquareParseError::SquareFileError(c)) => s@.len() == 2 && !('a' <= s@[0] <= 'h')
                    && c == s@[0],
                Err(SquareParseError::SquareRankError(c)) => s@.len() == 2 && 'a' <= s@[0] <= 'h'
                    && !('1' <= s@[1] <= '8') && c == s@[1],
            },
    {
        let n = s.unicode_len();
        if n != 2 {
            return Err(SquareParseError::SquareLengthError(s.to_owned()));
        }
        let f = s.get_char(0);
        let k = s.get_char(1);
        if !('a' <= f && f <= 'h') {
            return Err(SquareParseError::SquareFileError(f));
        }
        if !('1' <= k && k <= '8') {
            return Err(SquareParseError::SquareRankError(k));
        }
        let x = (f as u32 - 'a' as u32) as u8;
        let y = (k as u32 - '1' as u32) as u8;
        let sq = Square::new(8 * y + x);
        proof {
            assert(square_name(sq.spec_offset()) =~= s@);
        }
        Ok(sq)
    }
}

/// A square is the one square with its name.
pub proof fn lemma_square_name_injective(sq: Square)
    ensures
        forall|other: Square| #[trigger] square_name(other.spec_offset()) == square_name(sq.spec_offset()) ==> other == sq,
{
    assert forall|other: Square| #[trigger] square_name(other.spec_offset()) == square_name(sq.spec_offset()) implies other == sq by {
        let a = other.spec_offset();
        let b = sq.spec_offset();
        assert(square_name(a)[0] == square_name(b)[0]);
        assert(square_name(a)[1] == square_name(b)[1]);
        assert(a % 8 == b % 8);
        assert(a / 8 == b / 8);
        assert(a == b);
    }
}

/// Two squares with the same offset are the same square.
pub proof fn lemma_offset_injective(a: Square, b: Square)
    requires
        a.spec_offset() == b.spec_offset(),
    ensures
        a == b,
{
}

/// The file letter of a file number.
pub fn file_letter(x: u8) -> (r: char)
    requires
        x < 8,
    ensures
        r == file_char(x as int),
{
    match x {
        0 => 'a',
        1 => 'b',
        2 => 'c',
        3 => 'd',
        4 => 'e',
        5 => 'f',
        6 => 'g',
        _ => 'h',
    }
}

/// The rank digit of a rank number.
pub fn rank_digit(y: u8) -> (r: char)
    requires
        y < 8,
    ensures
        r == rank_char(y as int),
{
    match y {
        0 => '1',
        1 => '2',
        2 => '3',
        3 => '4',
        4 => '5',
        5 => '6',
        6 => '7',
        _ => '8',
    }
}

/// Relies on `String::push`: appends one character.
#[verifier::external_body]
pub(crate) fn push_char(s: &mut String, c: char)
    ensures
        final(s)@ == old(s)@.push(c),
{
    s.push(c)
}

} // verus!
