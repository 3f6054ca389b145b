//! Lines through pairs of squares, and the squares between them.
use vstd::prelude::*;

use bitintr::Blsr;

use crate::bitboard::{cardinal_ray_attacks, diagonal_ray_attacks, spec_cardinal_ray_attacks, spec_diagonal_ray_attacks};
use crate::square::masks::ALL;
use crate::square::{bit_mask, Square};

verus! {

/// The whole rank, file or diagonal through the squares `a` and `b`; the
/// square itself when they are the same; empty when no line joins them.
pub open spec fn spec_line_bb(a: int, b: int) -> u64 {
    let from_mask = bit_mask(a);
    let to_mask = bit_mask(b);
    if a == b {
        from_mask
    } else {
        let from_rook = spec_cardinal_ray_attacks(from_mask, !0u64);
        let to_rook = spec_cardinal_ray_attacks(to_mask, !0u64);
        let from_bishop = spec_diagonal_ray_attacks(from_mask, !0u64);
        let to_bishop = spec_diagonal_ray_attacks(to_mask, !0u64);
        if from_rook & to_mask != 0 {
            (from_rook & to_rook) | from_mask | to_mask
        } else if from_bishop & to_mask != 0 {
            (from_bishop & to_bishop) | from_mask | to_mask
        } else {
            0
        }
    }
}

/// The squares strictly between `a` and `b` on their line: the part of the
/// line from the lower square up to the higher one, without the lower square.
pub open spec fn spec_between(a: int, b: int) -> u64 {
    let line = spec_line_bb(a, b);
    let span = line & ((ALL << (a as u64)) ^ (ALL << (b as u64)));
    if span != 0 {
        span & ((span - 1) as u64)
    } else {
        0
    }
}

/// Relies on bitintr's `Blsr` for `u64`: clears the lowest set bit. It
/// debug-asserts a non-zero argument.
#[verifier::external_body]
fn reset_lowest_bit(x: u64) -> (r: u64)
    requires
        x != 0,
    ensures
        r == x & ((x - 1) as u64),
{
    x.blsr()
}

/// The line through two squares, computed from full rook and bishop rays.
fn line_bb(from_square: Square, to_square: Square) -> (r: u64)
    ensures
        r == spec_line_bb(from_square.spec_offset(), to_square.spec_offset()),
{
    let from_mask = from_square.mask();
    if from_square.offset() == to_square.offset() {
        return from_mask;
    }
    let to_mask = to_square.mask();
    let from_rook = cardinal_ray_attacks(from_mask, !0u64);
    let to_rook = cardinal_ray_attacks(to_mask, !0u64);
    let from_bishop = diagonal_ray_attacks(from_mask, !0u64);
    let to_bishop = diagonal_ray_attacks(to_mask, !0u64);
    if from_rook & to_mask != 0 {
        (from_rook & to_rook) | from_mask | to_mask
    } else if from_bishop & to_mask != 0 {
        (from_bishop & to_bishop) | from_mask | to_mask
    } else {
        0
    }
}

/// The line through each pair of squares, computed once.
pub struct LineTable {
    lines: Vec<u64>,
}

impl LineTable {
    /// Entry `64 * a + b` holds the line through `a` and `b`.
    pub closed spec fn wf(&self) -> bool {
        &&& self.lines@.len() == 4096
        &&& forall|a: int, b: int| 0 <= a < 64 && 0 <= b < 64 ==> #[trigger] self.lines@[64 * a + b] == spec_line_bb(a, b)
    }

    /// Computes the line of every pair of squares.
    pub fn new() -> (r: LineTable)
        ensures
            r.wf(),
    {
        let mut lines: Vec<u64> = Vec::new();
        let mut a: u8 = 0;
        while a < 64
            invariant
                a <= 64,
                lines@.len() == 64 * a,
                forall|i: int, j: int| 0 <= i < a && 0 <= j < 64 ==> #[trigger] lines@[64 * i + j] == spec_line_bb(i, j),
            decreases 64 - a,
        {
            let from = Square::new(a);
            let mut b: u8 = 0;
            while b < 64
                invariant
                    a < 64,
                    b <= 64,
                    from.spec_offset() == a,
                    lines@.len() == 64 * a + b,
                    forall|i: int, j: int|
                        0 <= i < a && 0 <= j < 64 ==> #[trigger] lines@[64 * i + j] == spec_line_bb(i, j),
                    forall|j: int| 0 <= j < b ==> #[trigger] lines@[64 * a + j] == spec_line_bb(a as int, j),
                decreases 64 - b,
            {
                let ghost before = lines@;
                lines.push(line_bb(from, Square::new(b)));
                proof {
                    assert forall|i: int, j: int| 0 <= i < a && 0 <= j < 64 implies #[trigger] lines@[64 * i + j]
                        == spec_line_bb(i, j) by {
                        assert(64 * i + j < 64 * a);
                        assert(lines@[64 * i + j] == before[64 * i + j]);
                    }
                }
                b = b + 1;
            }
            a = a + 1;
        }
        LineTable { lines }
    }

    /// The whole line through `a` and `b`; empty when they are not aligned.
    pub fn line_fill(&self, a: Square, b: Square) -> (r: u64)
        requires
            self.wf(),
        ensures
            r == spec_line_bb(a.spec_offset(), b.spec_offset()),
    {
        let i = a.offset() as usize;
        let j = b.offset() as usize;
        self.lines[64 * i + j]
    }

    /// The squares strictly between `a` and `b` when they share a line; else empty.
    pub fn between_fill(&self, a: Square, b: Square) -> (r: u64)
        requires
            self.wf(),
        ensures
            r == spec_between(a.spec_offset(), b.spec_offset()),
    {
        let line_mask = self.line_fill(a, b);
        let span = line_mask & ((ALL << a.offset()) ^ (ALL << b.offset()));
        if span != 0 {
            reset_lowest_bit(span)
        } else {
            0
        }
    }

    /// Whether `c` lies on the line through `a` and `b`.
    pub fn aligned(&self, a: Square, b: Square, c: Square) -> (r: bool)
        requires
            self.wf(),
        ensures
            r == (spec_line_bb(a.spec_offset(), b.spec_offset()) & bit_mask(c.spec_offset()) != 0),
    {
        self.line_fill(a, b) & c.mask() != 0
    }
}

/// Builds the table of lines.
pub fn init_line_table() -> (r: LineTable)
    ensures
        r.wf(),
{
    LineTable::new()
}

} // verus!
