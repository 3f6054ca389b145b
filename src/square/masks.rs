//! Masks of files, ranks and the whole board.
use vstd::prelude::*;

verus! {

pub const A_FILE: u64 = 0x0101010101010101;
pub const B_FILE: u64 = 0x0202020202020202;
pub const C_FILE: u64 = 0x0404040404040404;
pub const D_FILE: u64 = 0x0808080808080808;
pub const E_FILE: u64 = 0x1010101010101010;
pub const F_FILE: u64 = 0x2020202020202020;
pub const G_FILE: u64 = 0x4040404040404040;
pub const H_FILE: u64 = 0x8080808080808080;

pub const RANK_1: u64 = 0x00000000000000FF;
pub const RANK_2: u64 = 0x000000000000FF00;
pub const RANK_3: u64 = 0x0000000000FF0000;
pub const RANK_4: u64 = 0x00000000FF000000;
pub const RANK_5: u64 = 0x000000FF00000000;
pub const RANK_6: u64 = 0x0000FF0000000000;
pub const RANK_7: u64 = 0x00FF000000000000;
pub const RANK_8: u64 = 0xFF00000000000000;

/// The whole board.
pub const ALL: u64 = 0xFFFFFFFFFFFFFFFF;

/// No square.
pub const NONE: u64 = 0x0;

pub const NOT_H_FILE: u64 = 0x7F7F7F7F7F7F7F7F;
pub const NOT_A_FILE: u64 = 0xFEFEFEFEFEFEFEFE;
pub const NOT_G_OR_H_FILE: u64 = 0x3F3F3F3F3F3F3F3F;
pub const NOT_A_OR_B_FILE: u64 = 0xFCFCFCFCFCFCFCFC;

/// The mask of file `x`, 0 for the A file; empty beyond the H file.
pub open spec fn spec_file_for_x(x: u8) -> u64 {
    if x < 8 {
        (A_FILE << x) as u64
    } else {
        0
    }
}

/// The mask of file `x`, 0 for the A file; empty beyond the H file.
pub fn file_for_x(x: u8) -> (r: u64)
    ensures
        r == spec_file_for_x(x),
{
    let r = match x {
        0 => A_FILE,
        1 => B_FILE,
        2 => C_FILE,
        3 => D_FILE,
        4 => E_FILE,
        5 => F_FILE,
        6 => G_FILE,
        7 => H_FILE,
        _ => 0,
    };
    assert(r == spec_file_for_x(x)) by (bit_vector)
        requires
            r == (if x == 0 { 0x0101010101010101u64 } else if x == 1 { 0x0202020202020202u64 }
                else if x == 2 { 0x0404040404040404u64 } else if x == 3 { 0x0808080808080808u64 }
                else if x == 4 { 0x1010101010101010u64 } else if x == 5 { 0x2020202020202020u64 }
                else if x == 6 { 0x4040404040404040u64 } else if x == 7 { 0x8080808080808080u64 } else { 0u64 }),
    ;
    r
}

} // verus!
