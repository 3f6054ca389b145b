//! Errors of reading squares, sides, castle rights and FEN text.
use vstd::prelude::*;

verus! {

/// A square's name did not have exactly two characters.
#[derive(Clone, Debug)]
pub struct SquareLengthError(pub String);

/// A square's file letter was not one of `a`..`h`.
#[derive(Clone, Debug)]
pub struct SquareFileError;

/// A square's rank digit was not one of `1`..`8`.
#[derive(Clone, Debug)]
pub struct SquareRankError;

/// Why a square's name could not be read.
#[derive(Clone, Debug)]
pub enum SquareParseError {
    /// The name, which did not have two characters.
    SquareLengthError(String),
    /// The file character that is not a file letter.
    SquareFileError(char),
    /// The rank character that is not a rank digit.
    SquareRankError(char),
}

/// A side token other than `w` or `b`.
#[derive(Clone, Debug)]
pub struct InvalidSideError;

/// A castle rights token that is not `-` or a non-empty subsequence of `KQkq`.
#[derive(Clone, Debug)]
pub struct InvalidCastlesError;

/// A FEN text without the six space-separated fields, holding the text.
#[derive(Clone, Debug)]
pub struct InvalidFenString(pub String);

/// Why a FEN text could not be read; each variant holds the offending text.
#[derive(Clone, Debug)]
pub enum FenParseError {
    SquareParseError(SquareParseError, String),
    InvalidFenString(InvalidFenString),
    InvalidSideError(InvalidSideError, String),
    InvalidCastlesError(InvalidCastlesError, String),
}

} // verus!
