//! FEN text: writing a position, and reading one back.
use vstd::prelude::*;

use crate::castles::{castle_text, CastlePermissions};
use crate::errors::{FenParseError, InvalidFenString};
use crate::pieces::{piece_of_char, ColoredPiece};
use crate::board::MutablePosition;
use crate::position::Position;
use crate::side::{side_char, Side};
use crate::square::{push_char, square_name, Square};

verus! {

// FEN text: `<placement> <side> <castle-rights> <en-passant-or-dash> <halfmove> <fullmove>`.
// The placement lists the ranks from the eighth down to the first, separated by
// `/`; within a rank, files a to h, a letter for each piece (uppercase for
// white) and a digit for each run of empty squares.

/// The decimal digit character of `d` (0..9).
pub open spec fn digit_char(d: int) -> char {
    (('0' as int) + d) as char
}

/// The decimal text of `n`, without leading zeros.
pub open spec fn decimal(n: nat) -> Seq<char>
    decreases n,
{
    if n < 10 {
        seq![digit_char(n as int)]
    } else {
        decimal(n / 10).push(digit_char((n % 10) as int))
    }
}

/// The text of files `x`.. of rank `y`, with `run` empty squares pending before them.
pub open spec fn rank_text_from(b: Seq<ColoredPiece>, y: int, x: int, run: nat) -> Seq<char>
    decreases 8 - x,
{
    if x >= 8 {
        if run > 0 {
            seq![digit_char(run as int)]
        } else {
            Seq::empty()
        }
    } else if b[8 * y + x] == ColoredPiece::Empty {
        rank_text_from(b, y, x + 1, run + 1)
    } else {
        (if run > 0 {
            seq![digit_char(run as int)]
        } else {
            Seq::<char>::empty()
        }) + seq![b[8 * y + x].spec_to_ascii()] + rank_text_from(b, y, x + 1, 0)
    }
}

/// The placement text of the top `k` ranks (the eighth first), separated by `/`.
pub open spec fn top_ranks_text(b: Seq<ColoredPiece>, k: int) -> Seq<char>
    decreases k,
{
    if k <= 0 {
        Seq::empty()
    } else if k == 1 {
        rank_text_from(b, 7, 0, 0)
    } else {
        top_ranks_text(b, k - 1) + seq!['/'] + rank_text_from(b, 8 - k, 0, 0)
    }
}

/// The en-passant field: the target's name, or `-`.
pub open spec fn en_passant_text(e: Option<Square>) -> Seq<char> {
    match e {
        Some(sq) => square_name(sq.spec_offset()),
        None => seq!['-'],
    }
}

/// The FEN text of a position; an unknown halfmove clock is written as 0.
pub open spec fn fen_text(p: Position) -> Seq<char> {
    top_ranks_text(p.squares@, 8) + state_text(p)
}

/// The fields after the placement, each preceded by a space.
pub open spec fn state_text(p: Position) -> Seq<char> {
    seq![' ', side_char(p.side), ' '] + castle_text(p.castle_rights.spec_bits()) + seq![' '] + en_passant_text(
        p.enpassant_square,
    ) + seq![' '] + decimal(p.halfmove_clock.unwrap_or(0) as nat) + seq![' '] + decimal(p.fullmove_count as nat)
}

/// Appends the decimal text of `n`.
fn push_decimal(s: &mut String, n: u64)
    ensures
        final(s)@ == old(s)@ + decimal(n as nat),
    decreases n,
{
    if n >= 10 {
        push_decimal(s, n / 10);
    }
    let d = (n % 10) as u8;
    push_char(s, digit(d));
    proof {
        if n >= 10 {
            assert(final(s)@ =~= old(s)@ + decimal(n as nat));
        }
    }
}

/// The decimal digit character of `d`.
fn digit(d: u8) -> (r: char)
    requires
        d < 10,
    ensures
        r == digit_char(d as int),
{
    match d {
        0 => '0',
        1 => '1',
        2 => '2',
        3 => '3',
        4 => '4',
        5 => '5',
        6 => '6',
        7 => '7',
        8 => '8',
        _ => '9',
    }
}

/// Appends the text of rank `y`.
fn push_rank(s: &mut String, b: &[ColoredPiece; 64], y: u8)
    requires
        y < 8,
    ensures
        final(s)@ == old(s)@ + rank_text_from(b@, y as int, 0, 0),
{
    let mut x: u8 = 0;
    let mut run: u8 = 0;
    while x < 8
        invariant
            y < 8,
            x <= 8,
            run <= x,
            s@ + rank_text_from(b@, y as int, x as int, run as nat) == old(s)@ + rank_text_from(b@, y as int, 0, 0),
        decreases 8 - x,
    {
        let piece = b[(8 * y + x) as usize];
        let ghost before = s@;
        if piece == ColoredPiece::Empty {
            run = run + 1;
        } else {
            if run > 0 {
                push_char(s, digit(run));
            }
            push_char(s, piece.to_ascii());
            proof {
                assert(s@ + rank_text_from(b@, y as int, x + 1, 0) =~= before + rank_text_from(
                    b@,
                    y as int,
                    x as int,
                    run as nat,
                ));
            }
            run = 0;
        }
        x = x + 1;
    }
    if run > 0 {
        push_char(s, digit(run));
    }
    proof {
        assert(s@ =~= old(s)@ + rank_text_from(b@, y as int, 0, 0));
    }
}

/// Appends the fields after the placement.
fn push_state(s: &mut String, p: &Position)
    ensures
        final(s)@ == old(s)@ + state_text(*p),
{
    let ghost s0 = s@;
    push_char(s, ' ');
    push_char(s, p.side.to_char());
    push_char(s, ' ');
    let c = p.castle_rights.to_fen();
    s.append(c.as_str());
    push_char(s, ' ');
    let ghost s1 = s@;
    assert(s1 =~= s0 + seq![' ', side_char(p.side), ' '] + castle_text(p.castle_rights.spec_bits()) + seq![' ']);
    match p.enpassant_square {
        Some(sq) => {
            let n = sq.name();
            s.append(n.as_str());
        },
        None => push_char(s, '-'),
    }
    push_char(s, ' ');
    let ghost s2 = s@;
    assert(s2 =~= s1 + en_passant_text(p.enpassant_square) + seq![' ']);
    match p.halfmove_clock {
        Some(h) => push_decimal(s, h as u64),
        None => push_char(s, '0'),
    }
    push_char(s, ' ');
    let ghost s3 = s@;
    assert(s3 =~= s2 + decimal(p.halfmove_clock.unwrap_or(0) as nat) + seq![' ']);
    push_decimal(s, p.fullmove_count as u64);
    assert(s@ =~= old(s)@ + state_text(*p));
}

impl Position {
    /// The FEN text of the position.
    pub fn to_fen(&self) -> (r: String)
        ensures
            r@ == fen_text(*self),
    {
        let mut s = String::new();
        let mut k: u8 = 0;
        while k < 8
            invariant
                k <= 8,
                s@ == top_ranks_text(self.squares@, k as int),
            decreases 8 - k,
        {
            if k > 0 {
                push_char(&mut s, '/');
            }
            push_rank(&mut s, &self.squares, 7 - k);
            proof {
                if k > 0 {
                    assert(s@ =~= top_ranks_text(self.squares@, k + 1));
                }
            }
            k = k + 1;
        }
        push_state(&mut s, self);
        proof {
            assert(s@ =~= fen_text(*self));
        }
        s
    }
}

/// The indices of the first `n` characters of `t` that are spaces, in order.
pub open spec fn spaces_in(t: Seq<char>, n: int) -> Seq<int>
    decreases n,
{
    if n <= 0 {
        Seq::empty()
    } else if t[n - 1] == ' ' {
        spaces_in(t, n - 1).push(n - 1)
    } else {
        spaces_in(t, n - 1)
    }
}

/// The number of space-separated fields of `t` (empty fields included).
pub open spec fn field_count(t: Seq<char>) -> int {
    spaces_in(t, t.len() as int).len() + 1int
}

/// Field `k` of `t`: the text between the `k`-th space and the next one.
pub open spec fn field(t: Seq<char>, k: int) -> Seq<char> {
    let sp = spaces_in(t, t.len() as int);
    let start = if k == 0 { 0 } else { sp[k - 1] + 1 };
    let end = if k < sp.len() { sp[k] } else { t.len() as int };
    t.subrange(start, end)
}

/// Whether `c` is a decimal digit.
pub open spec fn is_digit(c: char) -> bool {
    '0' <= c <= '9'
}

/// The value of a text of decimal digits.
pub open spec fn decimal_value(t: Seq<char>) -> nat
    decreases t.len(),
{
    if t.len() == 0 {
        0
    } else {
        decimal_value(t.drop_last()) * 10 + (t.last() as int - '0' as int) as nat
    }
}

/// The number a field holds, if it is a non-empty run of digits whose value is at most `max`.
pub open spec fn number_field(t: Seq<char>, max: nat) -> Option<nat> {
    if t.len() > 0 && (forall|i: int| 0 <= i < t.len() ==> is_digit(#[trigger] t[i])) && decimal_value(t) <= max {
        Some(decimal_value(t))
    } else {
        None
    }
}

/// The state of reading a placement: the board so far, the current rank, the
/// next file, and whether the text is still valid.
pub type PlacementState = (Seq<ColoredPiece>, int, int, bool);

/// The state before reading a placement: an empty board, at file a of the eighth rank.
pub open spec fn placement_start() -> PlacementState {
    (Seq::new(64, |i: int| ColoredPiece::Empty), 7, 0, true)
}

/// The state after reading one more character of a placement: a digit skips
/// that many empty squares, `/` moves to the next rank down once the current
/// one is full, a piece letter puts the piece on the next square.
pub open spec fn placement_step(st: PlacementState, c: char) -> PlacementState {
    let (b, y, x, ok) = st;
    if !ok {
        (b, y, x, false)
    } else if '1' <= c <= '8' {
        let d = c as int - '0' as int;
        if x + d <= 8 {
            (b, y, x + d, true)
        } else {
            (b, y, x, false)
        }
    } else if c == '/' {
        if x == 8 && y > 0 {
            (b, y - 1, 0, true)
        } else {
            (b, y, x, false)
        }
    } else if piece_of_char(c) != ColoredPiece::Empty && x < 8 {
        (b.update(8 * y + x, piece_of_char(c)), y, x + 1, true)
    } else {
        (b, y, x, false)
    }
}

/// The state after reading the characters of `t` from `st`.
pub open spec fn placement_run(st: PlacementState, t: Seq<char>) -> PlacementState
    decreases t.len(),
{
    if t.len() == 0 {
        st
    } else {
        placement_step(placement_run(st, t.drop_last()), t.last())
    }
}

/// The state after reading the first `n` characters of `t`.
pub open spec fn placement_from(t: Seq<char>, n: int) -> PlacementState {
    placement_run(placement_start(), t.subrange(0, n))
}

/// Whether `t` is a placement: eight ranks of exactly eight squares each.
pub open spec fn placement_valid(t: Seq<char>) -> bool {
    let (b, y, x, ok) = placement_from(t, t.len() as int);
    ok && y == 0 && x == 8
}

/// The board a placement describes.
pub open spec fn placement_board(t: Seq<char>) -> Seq<ColoredPiece> {
    placement_from(t, t.len() as int).0
}

/// Whether `t` has the six fields of a FEN text with a valid side, castle
/// rights, en-passant target and placement.
pub open spec fn fen_accepted(t: Seq<char>) -> bool {
    &&& field_count(t) >= 6
    &&& (field(t, 1) == seq!['w'] || field(t, 1) == seq!['b'])
    &&& (exists|b: u8| b < 16 && castle_text(b) == field(t, 2))
    &&& (field(t, 3) == seq!['-'] || is_square_name(field(t, 3)))
    &&& placement_valid(field(t, 0))
}

/// `p` is the position that the FEN text `t` describes.
pub open spec fn parsed_fen(t: Seq<char>, p: Position) -> bool {
    &&& p.wf()
    &&& p.squares@ == placement_board(field(t, 0))
    &&& seq![side_char(p.side)] == field(t, 1)
    &&& castle_text(p.castle_rights.spec_bits()) == field(t, 2)
    &&& p.enpassant_square == en_passant_field(field(t, 3))
    &&& p.halfmove_clock == (match number_field(field(t, 4), 255) {
        Some(v) => Some(v as u8),
        None => None,
    })
    &&& p.fullmove_count == (match number_field(field(t, 5), 65535) {
        Some(v) => v as u16,
        None => 1u16,
    })
}

/// Whether `t` names a square.
pub open spec fn is_square_name(t: Seq<char>) -> bool {
    t.len() == 2 && 'a' <= t[0] <= 'h' && '1' <= t[1] <= '8'
}

/// The en-passant target a field names: none for `-`, else the square.
pub open spec fn en_passant_field(t: Seq<char>) -> Option<Square> {
    if t == seq!['-'] {
        None
    } else {
        Some(choose|sq: Square| square_name(sq.spec_offset()) == t)
    }
}

proof fn lemma_spaces_sorted(t: Seq<char>, n: int)
    requires
        0 <= n <= t.len(),
    ensures
        forall|j: int| 0 <= j < spaces_in(t, n).len() ==> 0 <= #[trigger] spaces_in(t, n)[j] < n && t[spaces_in(t, n)[j]] == ' ',
        forall|j: int, k: int| 0 <= j < k < spaces_in(t, n).len() ==> spaces_in(t, n)[j] < spaces_in(t, n)[k],
        spaces_in(t, n).len() <= n,
    decreases n,
{
    if n > 0 {
        lemma_spaces_sorted(t, n - 1);
    }
}

/// The indices of the spaces of `s`.
fn space_positions(s: &str) -> (r: Vec<usize>)
    ensures
        r@.len() == spaces_in(s@, s@.len() as int).len(),
        forall|j: int| 0 <= j < r@.len() ==> r@[j] as int == #[trigger] spaces_in(s@, s@.len() as int)[j],
{
    let n = s.unicode_len();
    let mut r: Vec<usize> = Vec::new();
    let mut i: usize = 0;
    while i < n
        invariant
            n == s@.len(),
            i <= n,
            r@.len() == spaces_in(s@, i as int).len(),
            forall|j: int| 0 <= j < r@.len() ==> r@[j] as int == #[trigger] spaces_in(s@, i as int)[j],
        decreases n - i,
    {
        if s.get_char(i) == ' ' {
            r.push(i);
        }
        i = i + 1;
    }
    r
}

/// Field `k` of `s`, given the indices of its spaces.
fn field_str<'a>(s: &'a str, sp: &Vec<usize>, k: usize) -> (r: &'a str)
    requires
        k <= sp@.len(),
        sp@.len() == spaces_in(s@, s@.len() as int).len(),
        forall|j: int| 0 <= j < sp@.len() ==> sp@[j] as int == #[trigger] spaces_in(s@, s@.len() as int)[j],
    ensures
        r@ == field(s@, k as int),
{
    proof {
        lemma_spaces_sorted(s@, s@.len() as int);
    }
    let n = s.unicode_len();
    proof {
        if k > 0 {
            assert(sp@[k - 1] as int == spaces_in(s@, s@.len() as int)[k - 1]);
        }
        if k < sp@.len() {
            assert(sp@[k as int] as int == spaces_in(s@, s@.len() as int)[k as int]);
        }
    }
    let start = if k == 0 {
        0
    } else {
        sp[k - 1] + 1
    };
    let end = if k < sp.len() {
        sp[k]
    } else {
        n
    };
    proof {
        if 0 < k < sp@.len() {
            assert(spaces_in(s@, s@.len() as int)[k - 1] < spaces_in(s@, s@.len() as int)[k as int]);
        }
    }
    s.substring_char(start, end)
}

/// Reads a field of digits whose value is at most `max`.
fn parse_number(t: &str, max: u64) -> (r: Option<u64>)
    requires
        max < 0x1_0000,
    ensures
        match number_field(t@, max as nat) {
            Some(v) => r == Some(v as u64),
            None => r.is_none(),
        },
{
    let n = t.unicode_len();
    if n == 0 {
        return None;
    }
    let mut acc: u64 = 0;
    let mut i: usize = 0;
    while i < n
        invariant
            n == t@.len(),
            0 < n,
            max < 0x1_0000,
            i <= n,
            forall|j: int| 0 <= j < i ==> is_digit(#[trigger] t@[j]),
            acc == (if decimal_value(t@.subrange(0, i as int)) <= max {
                decimal_value(t@.subrange(0, i as int))
            } else {
                max as nat + 1
            }),
        decreases n - i,
    {
        let c = t.get_char(i);
        if !('0' <= c && c <= '9') {
            return None;
        }
        let d = (c as u32 - '0' as u32) as u64;
        proof {
            let prefix = t@.subrange(0, i as int);
            let next = t@.subrange(0, i as int + 1);
            assert(next.drop_last() =~= prefix);
            let v = decimal_value(prefix);
            assert(decimal_value(next) == v * 10 + d);
            if v > max {
                assert(v * 10 + d > max) by (nonlinear_arith)
                    requires
                        v > max,
                        d >= 0,
                ;
            }
        }
        acc = if acc * 10 + d > max {
            max + 1
        } else {
            acc * 10 + d
        };
        i = i + 1;
    }
    proof {
        assert(t@.subrange(0, n as int) =~= t@);
    }
    if acc > max {
        None
    } else {
        Some(acc)
    }
}

/// Reads a placement into an otherwise empty position.
fn parse_placement(t: &str) -> (r: Option<Position>)
    ensures
        match r {
            Some(p) => placement_valid(t@) && p.wf() && p.squares@ == placement_board(t@),
            None => !placement_valid(t@),
        },
{
    let n = t.unicode_len();
    let mut p = Position::default();
    let mut y: u8 = 7;
    let mut x: u8 = 0;
    let mut i: usize = 0;
    proof {
        assert(p.squares@ =~= placement_from(t@, 0).0);
    }
    while i < n
        invariant
            n == t@.len(),
            i <= n,
            p.wf(),
            y < 8,
            x <= 8,
            placement_from(t@, i as int) == (p.squares@, y as int, x as int, true),
            forall|o: int| 0 <= o < 64 && (o / 8 < y || (o / 8 == y && o % 8 >= x)) ==> #[trigger] p.squares@[o]
                == ColoredPiece::Empty,
        decreases n - i,
    {
        let c = t.get_char(i);
        proof {
            assert(t@.subrange(0, i as int + 1).drop_last() =~= t@.subrange(0, i as int));
        }
        if '1' <= c && c <= '8' {
            let d = (c as u32 - '0' as u32) as u8;
            if x + d > 8 {
                proof {
                    lemma_placement_stuck(t@, i as int + 1);
                }
                return None;
            }
            x = x + d;
        } else if c == '/' {
            if x != 8 || y == 0 {
                proof {
                    lemma_placement_stuck(t@, i as int + 1);
                }
                return None;
            }
            y = y - 1;
            x = 0;
        } else {
            let piece = ColoredPiece::from(c);
            if piece == ColoredPiece::Empty || x >= 8 {
                proof {
                    lemma_placement_stuck(t@, i as int + 1);
                }
                return None;
            }
            p.add_piece(piece, Square::new(8 * y + x));
            x = x + 1;
        }
        i = i + 1;
    }
    proof {
        assert(t@.subrange(0, n as int) =~= t@);
    }
    if y == 0 && x == 8 {
        Some(p)
    } else {
        None
    }
}

/// Once a placement has gone wrong it stays wrong.
proof fn lemma_placement_stuck(t: Seq<char>, n: int)
    requires
        0 <= n <= t.len(),
        !placement_from(t, n).3,
    ensures
        !placement_from(t, t.len() as int).3,
    decreases t.len() - n,
{
    if n < t.len() {
        assert(t.subrange(0, n + 1).drop_last() =~= t.subrange(0, n));
        lemma_placement_stuck(t, n + 1);
    } else {
        assert(t.subrange(0, n) =~= t);
    }
}

impl Position {
    /// Reads a position from FEN text. Fewer than six fields, or a placement
    /// that is not eight ranks of eight squares, give `InvalidFenString`; a bad
    /// side, castle-rights or en-passant field gives its own error with the
    /// field's text, checked in that order. A halfmove field that is not a
    /// number up to 255 reads as unknown; a fullmove field that is not a number
    /// up to 65535 reads as 1.
    pub fn from_fen(s: &str) -> (r: Result<Position, FenParseError>)
        ensures
            ({
                let t = s@;
                let side_ok = field(t, 1) == seq!['w'] || field(t, 1) == seq!['b'];
                let castle_ok = exists|b: u8| b < 16 && castle_text(b) == field(t, 2);
                let ep_ok = field(t, 3) == seq!['-'] || is_square_name(field(t, 3));
                match r {
                    Ok(p) => fen_accepted(t) && parsed_fen(t, p),
                    Err(FenParseError::InvalidFenString(e)) => e.0@ == t && (field_count(t) < 6 || (side_ok && castle_ok
                        && ep_ok && !placement_valid(field(t, 0)))),
                    Err(FenParseError::InvalidSideError(_, tok)) => field_count(t) >= 6 && !side_ok && tok@ == field(t, 1),
                    Err(FenParseError::InvalidCastlesError(_, tok)) => field_count(t) >= 6 && side_ok && !castle_ok
                        && tok@ == field(t, 2),
                    Err(FenParseError::SquareParseError(_, tok)) => field_count(t) >= 6 && side_ok && castle_ok
                        && !ep_ok && tok@ == field(t, 3),
                }
            }),
    {
        let sp = space_positions(s);
        if sp.len() < 5 {
            return Err(FenParseError::InvalidFenString(InvalidFenString(s.to_owned())));
        }
        let board_field = field_str(s, &sp, 0);
        let side_field = field_str(s, &sp, 1);
        let castle_field = field_str(s, &sp, 2);
        let ep_field = field_str(s, &sp, 3);
        let half_field = field_str(s, &sp, 4);
        let full_field = field_str(s, &sp, 5);
        let side = match Side::parse(side_field) {
            Ok(side) => side,
            Err(e) => {
                return Err(FenParseError::InvalidSideError(e, side_field.to_owned()));
            },
        };
        let castle_rights = match CastlePermissions::parse(castle_field) {
            Ok(c) => c,
            Err(e) => {
                return Err(FenParseError::InvalidCastlesError(e, castle_field.to_owned()));
            },
        };
        proof {
            assert(castle_text(castle_rights.spec_bits()) == field(s@, 2));
        }
        let enpassant_square = if ep_field.unicode_len() == 1 && ep_field.get_char(0) == '-' {
            proof {
                assert(ep_field@ =~= seq!['-']);
            }
            None
        } else {
            match Square::parse(ep_field) {
                Ok(sq) => {
                    proof {
                        assert(ep_field@ != seq!['-']);
                        crate::square::lemma_square_name_injective(sq);
                    }
                    Some(sq)
                },
                Err(e) => {
                    proof {
                        assert(!is_square_name(ep_field@));
                    }
                    return Err(FenParseError::SquareParseError(e, ep_field.to_owned()));
                },
            }
        };
        let halfmove_clock = match parse_number(half_field, 255) {
            Some(v) => Some(v as u8),
            None => None,
        };
        let fullmove_count = match parse_number(full_field, 65535) {
            Some(v) => v as u16,
            None => 1,
        };
        match parse_placement(board_field) {
            Some(p) => Ok(Position {
                side,
                fullmove_count,
                halfmove_clock,
                castle_rights,
                enpassant_square,
                squares: p.squares,
                piece_masks: p.piece_masks,
            }),
            None => Err(FenParseError::InvalidFenString(InvalidFenString(s.to_owned()))),
        }
    }
}

/// Reading `a` then `b` is reading `a + b`.
proof fn lemma_run_concat(st: PlacementState, a: Seq<char>, b: Seq<char>)
    ensures
        placement_run(st, a + b) == placement_run(placement_run(st, a), b),
    decreases b.len(),
{
    if b.len() == 0 {
        assert(a + b =~= a);
    } else {
        assert((a + b).drop_last() =~= a + b.drop_last());
        lemma_run_concat(st, a, b.drop_last());
    }
}

proof fn lemma_run_one(st: PlacementState, c: char)
    ensures
        placement_run(st, seq![c]) == placement_step(st, c),
{
    assert(seq![c].drop_last() =~= Seq::<char>::empty());
    assert(placement_run(st, Seq::<char>::empty()) == st);
}

/// `cur` with rank `y` taken from `b`.
pub open spec fn with_rank(cur: Seq<ColoredPiece>, b: Seq<ColoredPiece>, y: int) -> Seq<ColoredPiece> {
    Seq::new(64, |o: int| if o / 8 == y { b[o] } else { cur[o] })
}

/// The top `k` ranks of `b` on an otherwise empty board.
pub open spec fn top_board(b: Seq<ColoredPiece>, k: int) -> Seq<ColoredPiece> {
    Seq::new(64, |o: int| if o / 8 >= 8 - k { b[o] } else { ColoredPiece::Empty })
}

/// Reading the text of rank `y` from file `x`, with `run` empty squares
/// pending, puts the pieces of that rank of `b` on the board.
proof fn lemma_rank_round_trip(cur: Seq<ColoredPiece>, b: Seq<ColoredPiece>, y: int, x: int, run: int)
    requires
        b.len() == 64,
        cur.len() == 64,
        0 <= y < 8,
        0 <= run <= x <= 8,
        forall|o: int| 8 * y + x - run <= o < 8 * y + x ==> #[trigger] b[o] == ColoredPiece::Empty,
        forall|o: int| 8 * y <= o < 8 * y + x - run ==> #[trigger] cur[o] == b[o],
        forall|o: int| 8 * y + x - run <= o < 8 * y + 8 ==> #[trigger] cur[o] == ColoredPiece::Empty,
    ensures
        placement_run((cur, y, x - run, true), rank_text_from(b, y, x, run as nat)) == (with_rank(cur, b, y), y, 8int, true),
    decreases 8 - x,
{
    let st = (cur, y, x - run, true);
    if x >= 8 {
        if run > 0 {
            lemma_run_one(st, digit_char(run));
        }
        assert forall|o: int| 0 <= o < 64 implies cur[o] == #[trigger] with_rank(cur, b, y)[o] by {
            if o / 8 == y {
                assert(8 * y <= o < 8 * y + 8);
            }
        }
        assert(cur =~= with_rank(cur, b, y));
    } else if b[8 * y + x] == ColoredPiece::Empty {
        lemma_rank_round_trip(cur, b, y, x + 1, run + 1);
    } else {
        let pc = b[8 * y + x];
        let d = if run > 0 {
            seq![digit_char(run)]
        } else {
            Seq::<char>::empty()
        };
        let rest = rank_text_from(b, y, x + 1, 0);
        assert(rank_text_from(b, y, x, run as nat) == d + seq![pc.spec_to_ascii()] + rest);
        lemma_run_concat(st, d + seq![pc.spec_to_ascii()], rest);
        lemma_run_concat(st, d, seq![pc.spec_to_ascii()]);
        let st1 = placement_run(st, d);
        if run > 0 {
            lemma_run_one(st, digit_char(run));
        } else {
            assert(d.len() == 0);
        }
        assert(st1 == (cur, y, x, true));
        lemma_run_one(st1, pc.spec_to_ascii());
        crate::pieces::lemma_piece_char_round_trip(pc);
        let cur2 = cur.update(8 * y + x, pc);
        assert(placement_step(st1, pc.spec_to_ascii()) == (cur2, y, x + 1, true));
        lemma_rank_round_trip(cur2, b, y, x + 1, 0);
        assert(with_rank(cur2, b, y) =~= with_rank(cur, b, y));
    }
}

/// Reading the text of the top `k` ranks of `b` puts those ranks on the board.
proof fn lemma_top_ranks_round_trip(b: Seq<ColoredPiece>, k: int)
    requires
        b.len() == 64,
        1 <= k <= 8,
    ensures
        placement_run(placement_start(), top_ranks_text(b, k)) == (top_board(b, k), 8 - k, 8int, true),
    decreases k,
{
    let empty = placement_start().0;
    if k == 1 {
        lemma_rank_round_trip(empty, b, 7, 0, 0);
        assert(with_rank(empty, b, 7) =~= top_board(b, 1));
    } else {
        lemma_top_ranks_round_trip(b, k - 1);
        let above = top_ranks_text(b, k - 1);
        let rank = rank_text_from(b, 8 - k, 0, 0);
        lemma_run_concat(placement_start(), above + seq!['/'], rank);
        lemma_run_concat(placement_start(), above, seq!['/']);
        lemma_run_one((top_board(b, k - 1), 9 - k, 8, true), '/');
        let cur = top_board(b, k - 1);
        assert forall|o: int| 8 * (8 - k) <= o < 8 * (8 - k) + 8 implies #[trigger] cur[o] == ColoredPiece::Empty by {
            assert(o / 8 == 8 - k);
        }
        lemma_rank_round_trip(cur, b, 8 - k, 0, 0);
        assert forall|o: int| 0 <= o < 64 implies #[trigger] with_rank(cur, b, 8 - k)[o] == top_board(b, k)[o] by {
        }
        assert(with_rank(cur, b, 8 - k) =~= top_board(b, k));
    }
}

/// The placement text of a board is a valid placement that describes the board.
pub proof fn lemma_placement_round_trip(b: Seq<ColoredPiece>)
    requires
        b.len() == 64,
    ensures
        placement_valid(top_ranks_text(b, 8)),
        placement_board(top_ranks_text(b, 8)) == b,
{
    let t = top_ranks_text(b, 8);
    lemma_top_ranks_round_trip(b, 8);
    assert(t.subrange(0, t.len() as int) =~= t);
    assert(top_board(b, 8) =~= b);
}

/// The decimal text of `n` is a run of digits worth `n`.
pub proof fn lemma_decimal_round_trip(n: nat)
    ensures
        decimal(n).len() > 0,
        forall|i: int| 0 <= i < decimal(n).len() ==> is_digit(#[trigger] decimal(n)[i]),
        decimal_value(decimal(n)) == n,
    decreases n,
{
    if n < 10 {
        let t = seq![digit_char(n as int)];
        assert(t.drop_last() =~= Seq::<char>::empty());
        assert(decimal_value(Seq::<char>::empty()) == 0);
        assert(t.last() as int - '0' as int == n);
        assert(decimal_value(t) == decimal_value(t.drop_last()) * 10 + (t.last() as int - '0' as int) as nat);
    } else {
        lemma_decimal_round_trip(n / 10);
        let t = decimal(n);
        assert(t.drop_last() =~= decimal(n / 10));
        assert(t.last() as int - '0' as int == n % 10);
        assert(decimal_value(t) == decimal_value(t.drop_last()) * 10 + (t.last() as int - '0' as int) as nat);
        assert(n == (n / 10) * 10 + n % 10);
    }
}

/// Whether `a` holds no space.
pub open spec fn no_spaces(a: Seq<char>) -> bool {
    forall|i: int| 0 <= i < a.len() ==> #[trigger] a[i] != ' '
}

/// The indices of `s`, each moved up by `k`.
pub open spec fn shifted(s: Seq<int>, k: int) -> Seq<int> {
    s.map_values(|j: int| j + k)
}

proof fn lemma_spaces_prefix(a: Seq<char>, b: Seq<char>, n: int)
    requires
        0 <= n <= a.len(),
    ensures
        spaces_in(a + b, n) == spaces_in(a, n),
    decreases n,
{
    if n > 0 {
        lemma_spaces_prefix(a, b, n - 1);
        assert((a + b)[n - 1] == a[n - 1]);
    }
}

proof fn lemma_spaces_suffix(a: Seq<char>, b: Seq<char>, n: int)
    requires
        a.len() <= n <= a.len() + b.len(),
    ensures
        spaces_in(a + b, n) == spaces_in(a, a.len() as int) + shifted(spaces_in(b, n - a.len()), a.len() as int),
    decreases n,
{
    let k = a.len() as int;
    if n == k {
        lemma_spaces_prefix(a, b, n);
        assert(shifted(spaces_in(b, 0), k) =~= Seq::<int>::empty());
        assert(spaces_in(a, k) + Seq::<int>::empty() =~= spaces_in(a, k));
    } else {
        lemma_spaces_suffix(a, b, n - 1);
        let m = n - k;
        assert((a + b)[n - 1] == b[m - 1]);
        if b[m - 1] == ' ' {
            assert(shifted(spaces_in(b, m - 1).push(m - 1), k) =~= shifted(spaces_in(b, m - 1), k).push(m - 1 + k));
            assert((spaces_in(a, k) + shifted(spaces_in(b, m - 1), k)).push(n - 1) =~= spaces_in(a, k) + shifted(
                spaces_in(b, m - 1),
                k,
            ).push(n - 1));
        }
    }
}

proof fn lemma_no_spaces(a: Seq<char>, n: int)
    requires
        0 <= n <= a.len(),
        no_spaces(a),
    ensures
        spaces_in(a, n) == Seq::<int>::empty(),
    decreases n,
{
    if n > 0 {
        lemma_no_spaces(a, n - 1);
    }
}

/// A text without spaces is one field, itself.
proof fn lemma_single_field(a: Seq<char>)
    requires
        no_spaces(a),
    ensures
        field_count(a) == 1,
        field(a, 0) == a,
{
    lemma_no_spaces(a, a.len() as int);
    assert(a.subrange(0, a.len() as int) =~= a);
}

/// Joining a space-free `a` to `rest` with a space puts `a` first and shifts
/// the fields of `rest` one place on.
proof fn lemma_field_join(a: Seq<char>, rest: Seq<char>)
    requires
        no_spaces(a),
    ensures
        field_count(a + seq![' '] + rest) == field_count(rest) + 1,
        field(a + seq![' '] + rest, 0) == a,
        forall|k: int| 0 <= k < field_count(rest) ==> #[trigger] field(a + seq![' '] + rest, k + 1) == field(rest, k),
{
    let u = a + seq![' '];
    let t = u + rest;
    let off = a.len() + 1int;
    lemma_no_spaces(a, a.len() as int);
    assert(spaces_in(seq![' '], 0) == Seq::<int>::empty());
    assert(spaces_in(seq![' '], 1) =~= seq![0int]);
    lemma_spaces_suffix(a, seq![' '], u.len() as int);
    assert(spaces_in(u, u.len() as int) =~= seq![a.len() as int]);
    lemma_spaces_suffix(u, rest, t.len() as int);
    let sr = spaces_in(rest, rest.len() as int);
    let st = spaces_in(t, t.len() as int);
    assert(st == seq![a.len() as int] + shifted(sr, off));
    lemma_spaces_sorted(rest, rest.len() as int);
    assert(t.subrange(0, a.len() as int) =~= a);
    assert forall|k: int| 0 <= k < field_count(rest) implies #[trigger] field(t, k + 1) == field(rest, k) by {
        let start_r = if k == 0 { 0 } else { sr[k - 1] + 1 };
        let end_r = if k < sr.len() { sr[k] } else { rest.len() as int };
        let start_t = st[k] + 1;
        let end_t = if k + 1 < st.len() { st[k + 1] } else { t.len() as int };
        assert(start_t == start_r + off);
        assert(end_t == end_r + off);
        if 0 < k < sr.len() {
            assert(sr[k - 1] < sr[k]);
        }
        assert(t.subrange(start_t, end_t) =~= rest.subrange(start_r, end_r));
    }
}

proof fn lemma_rank_text_no_spaces(b: Seq<ColoredPiece>, y: int, x: int, run: int)
    requires
        0 <= y < 8,
        0 <= run <= x <= 8,
        b.len() == 64,
    ensures
        no_spaces(rank_text_from(b, y, x, run as nat)),
    decreases 8 - x,
{
    if x < 8 {
        if b[8 * y + x] == ColoredPiece::Empty {
            lemma_rank_text_no_spaces(b, y, x + 1, run + 1);
        } else {
            lemma_rank_text_no_spaces(b, y, x + 1, 0);
        }
    }
}

proof fn lemma_top_ranks_no_spaces(b: Seq<ColoredPiece>, k: int)
    requires
        1 <= k <= 8,
        b.len() == 64,
    ensures
        no_spaces(top_ranks_text(b, k)),
    decreases k,
{
    lemma_rank_text_no_spaces(b, 8 - k, 0, 0);
    if k > 1 {
        lemma_top_ranks_no_spaces(b, k - 1);
    }
}

/// The six fields of the FEN text of a position are its placement, side,
/// castle rights, en-passant target, halfmove clock and fullmove count.
#[verifier::rlimit(50)]
proof fn lemma_fen_fields(p: Position)
    requires
        p.wf(),
    ensures
        field_count(fen_text(p)) == 6,
        field(fen_text(p), 0) == top_ranks_text(p.squares@, 8),
        field(fen_text(p), 1) == seq![side_char(p.side)],
        field(fen_text(p), 2) == castle_text(p.castle_rights.spec_bits()),
        field(fen_text(p), 3) == en_passant_text(p.enpassant_square),
        field(fen_text(p), 4) == decimal(p.halfmove_clock.unwrap_or(0) as nat),
        field(fen_text(p), 5) == decimal(p.fullmove_count as nat),
{
    let b = p.squares@;
    let pl = top_ranks_text(b, 8);
    let sd = seq![side_char(p.side)];
    let cs = castle_text(p.castle_rights.spec_bits());
    let ep = en_passant_text(p.enpassant_square);
    let hm = decimal(p.halfmove_clock.unwrap_or(0) as nat);
    let fm = decimal(p.fullmove_count as nat);
    let t = fen_text(p);
    let r4 = hm + seq![' '] + fm;
    let r3 = ep + seq![' '] + r4;
    let r2 = cs + seq![' '] + r3;
    let r1 = sd + seq![' '] + r2;
    assert(t =~= pl + seq![' '] + r1);
    lemma_top_ranks_no_spaces(b, 8);
    lemma_decimal_round_trip(p.halfmove_clock.unwrap_or(0) as nat);
    lemma_decimal_round_trip(p.fullmove_count as nat);
    assert(no_spaces(sd));
    assert(no_spaces(cs));
    assert(no_spaces(ep));
    lemma_single_field(fm);
    lemma_field_join(hm, fm);
    assert(field(r4, 1) == fm);
    lemma_field_join(ep, r4);
    assert(field(r3, 1) == hm);
    assert(field(r3, 2) == fm);
    lemma_field_join(cs, r3);
    assert(field(r2, 1) == ep);
    assert(field(r2, 2) == hm);
    assert(field(r2, 3) == fm);
    lemma_field_join(sd, r2);
    assert(field(r1, 1) == cs);
    assert(field(r1, 2) == ep);
    assert(field(r1, 3) == hm);
    assert(field(r1, 4) == fm);
    lemma_field_join(pl, r1);
    assert(field(t, 1) == sd);
    assert(field(t, 2) == cs);
    assert(field(t, 3) == ep);
    assert(field(t, 4) == hm);
    assert(field(t, 5) == fm);
}

/// Every FEN text that a position writes is read back: it is accepted, and
/// the position read from it writes the same text again. So
/// serialize(parse(F)) == F for every valid FEN text F.
pub proof fn lemma_fen_round_trip(p: Position, q: Position)
    requires
        p.wf(),
    ensures
        fen_accepted(fen_text(p)),
        parsed_fen(fen_text(p), q) ==> fen_text(q) == fen_text(p),
{
    let b = p.squares@;
    let t = fen_text(p);
    let h = p.halfmove_clock.unwrap_or(0) as nat;
    let ep = en_passant_text(p.enpassant_square);
    lemma_fen_fields(p);
    lemma_placement_round_trip(b);
    lemma_decimal_round_trip(h);
    lemma_decimal_round_trip(p.fullmove_count as nat);
    assert(p.castle_rights.spec_bits() < 16);
    assert(number_field(decimal(h), 255) == Some(h));
    assert(number_field(decimal(p.fullmove_count as nat), 65535) == Some(p.fullmove_count as nat));
    if parsed_fen(t, q) {
        match p.enpassant_square {
            Some(sq) => {
                assert(ep.len() == 2);
                assert(ep != seq!['-']);
                let chosen = choose|c: Square| square_name(c.spec_offset()) == ep;
                assert(square_name(chosen.spec_offset()) == ep);
                assert(en_passant_text(q.enpassant_square) == ep);
            },
            None => {
                assert(en_passant_text(q.enpassant_square) == ep);
            },
        }
        assert(decimal(q.halfmove_clock.unwrap_or(0) as nat) == decimal(h));
        assert(seq![side_char(q.side)][0] == seq![side_char(p.side)][0]);
        assert(side_char(q.side) == side_char(p.side));
        assert(castle_text(q.castle_rights.spec_bits()) == castle_text(p.castle_rights.spec_bits()));
        assert(q.fullmove_count == p.fullmove_count);
        assert(state_text(q) =~= state_text(p));
        assert(fen_text(q) =~= t);
    }
}
} // verus!
