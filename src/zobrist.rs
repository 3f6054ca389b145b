//! Zobrist hashing of positions.
use vstd::prelude::*;

use rand::rngs::StdRng;
use rand::{RngCore, SeedableRng};

use crate::pieces::ColoredPiece;
use crate::position::Position;
use crate::side::Side;

verus! {

#[verifier::external_type_specification]
#[verifier::external_body]
pub struct ExStdRng(StdRng);

/// Relies on rand's `SeedableRng::seed_from_u64` for `StdRng`: a generator
/// whose stream is fixed by the seed.
#[verifier::external_body]
fn seeded_generator(seed: u64) -> StdRng {
    StdRng::seed_from_u64(seed)
}

/// Relies on rand's `RngCore::next_u64` for `StdRng`: the next value of the stream.
#[verifier::external_body]
fn next_key(rng: &mut StdRng) -> u64 {
    rng.next_u64()
}

/// The seed of the key stream, fixed so that hashes are reproducible.
pub const ZOBRIST_SEED: u64 = 0xDEADB33F;

/// Number of keys: one per (square, colored piece), one for black to move, one
/// per castle right, one per en-passant file.
pub const KEY_COUNT: usize = 781;

/// Index of the key for black to move.
pub const SIDE_KEY: usize = 768;

/// Index of the first castle-right key (black king side, black queen side,
/// white king side, white queen side).
pub const CASTLE_KEYS: usize = 769;

/// Index of the key for an en-passant target on the A file; the other files follow.
pub const EN_PASSANT_KEYS: usize = 773;

/// The XOR of the keys of the pieces on the first `n` squares.
pub open spec fn pieces_hash(keys: Seq<u64>, squares: Seq<ColoredPiece>, n: int) -> u64
    decreases n,
{
    if n <= 0 {
        0
    } else {
        pieces_hash(keys, squares, n - 1) ^ (if squares[n - 1] == ColoredPiece::Empty {
            0u64
        } else {
            keys[12 * (n - 1) + squares[n - 1].spec_index()]
        })
    }
}

/// The key of castle right `bit` (1, 2, 4 or 8) if it is held, else 0.
pub open spec fn right_key(keys: Seq<u64>, rights: u8, bit: u8, index: int) -> u64 {
    if rights & bit == bit {
        keys[index]
    } else {
        0
    }
}

/// The Zobrist hash of a position under `keys`: the XOR of the key of each
/// piece on its square, the side key if black is to move, the key of each held
/// castle right, and the key of the en-passant file if a target is set.
/// Clocks do not take part.
pub open spec fn spec_zobrist(keys: Seq<u64>, p: Position) -> u64 {
    let rights = p.castle_rights.spec_bits();
    pieces_hash(keys, p.squares@, 64) ^ (if p.side == Side::Black {
        keys[SIDE_KEY as int]
    } else {
        0u64
    }) ^ right_key(keys, rights, 4, 769) ^ right_key(keys, rights, 8, 770) ^ right_key(keys, rights, 1, 771)
        ^ right_key(keys, rights, 2, 772) ^ (match p.enpassant_square {
        Some(sq) => keys[EN_PASSANT_KEYS + sq.spec_x()],
        None => 0u64,
    })
}

/// The pseudo-random keys of Zobrist hashing, drawn once from a fixed seed.
pub struct ZobristKeys {
    keys: Vec<u64>,
}

impl ZobristKeys {
    pub closed spec fn view(&self) -> Seq<u64> {
        self.keys@
    }

    /// Draws the keys from the stream of the fixed seed.
    pub fn new() -> (r: ZobristKeys)
        ensures
            r.view().len() == KEY_COUNT,
    {
        let mut rng = seeded_generator(ZOBRIST_SEED);
        let mut keys: Vec<u64> = Vec::new();
        let mut i: usize = 0;
        while i < KEY_COUNT
            invariant
                i <= KEY_COUNT,
                keys@.len() == i,
            decreases KEY_COUNT - i,
        {
            keys.push(next_key(&mut rng));
            i = i + 1;
        }
        ZobristKeys { keys }
    }

    /// The number of keys.
    pub fn len(&self) -> (r: usize)
        ensures
            r == self.view().len(),
    {
        self.keys.len()
    }

    /// The key at `index`.
    pub fn key(&self, index: usize) -> (r: u64)
        requires
            index < self.view().len(),
        ensures
            r == self.view()[index as int],
    {
        self.keys[index]
    }

    /// The Zobrist hash of `p`.
    pub fn zobrist_hash(&self, p: &Position) -> (r: u64)
        requires
            self.view().len() == KEY_COUNT,
        ensures
            r == spec_zobrist(self.view(), *p),
    {
        let mut hash: u64 = 0;
        let mut i: usize = 0;
        while i < 64
            invariant
                i <= 64,
                self.keys@.len() == KEY_COUNT,
                hash == pieces_hash(self.keys@, p.squares@, i as int),
            decreases 64 - i,
        {
            let piece = p.squares[i];
            if piece != ColoredPiece::Empty {
                hash = hash ^ self.keys[12 * i + piece.index()];
            } else {
                proof {
                    lemma_xor_zero(hash);
                }
            }
            i = i + 1;
        }
        let side_part: u64 = match p.side {
            Side::Black => self.keys[SIDE_KEY],
            Side::White => 0,
        };
        let rights = p.castle_rights.bits();
        let bk: u64 = if rights & 4 == 4 { self.keys[769] } else { 0 };
        let bq: u64 = if rights & 8 == 8 { self.keys[770] } else { 0 };
        let wk: u64 = if rights & 1 == 1 { self.keys[771] } else { 0 };
        let wq: u64 = if rights & 2 == 2 { self.keys[772] } else { 0 };
        let ep: u64 = match p.enpassant_square {
            Some(sq) => self.keys[EN_PASSANT_KEYS + sq.x() as usize],
            None => 0,
        };
        hash ^ side_part ^ bk ^ bq ^ wk ^ wq ^ ep
    }
}

proof fn lemma_xor_zero(a: u64)
    ensures
        a ^ 0u64 == a,
{
    assert(a ^ 0u64 == a) by (bit_vector);
}

/// The hash is a function of the mailbox, the side to move, the castle rights
/// and the en-passant target: positions that agree on these (they may differ
/// in their clocks, the fullmove count among them) hash identically, and a
/// position always hashes the same. Positions that differ only in the side to
/// move hash differently, provided the side key is not zero.
pub proof fn lemma_zobrist_identity(keys: Seq<u64>, p: Position, q: Position)
    requires
        keys.len() == KEY_COUNT,
        p.squares@ == q.squares@,
        p.castle_rights == q.castle_rights,
        p.enpassant_square == q.enpassant_square,
    ensures
        p.side == q.side ==> spec_zobrist(keys, p) == spec_zobrist(keys, q),
        p.side != q.side && keys[SIDE_KEY as int] != 0 ==> spec_zobrist(keys, p) != spec_zobrist(keys, q),
{
    if p.side != q.side && keys[SIDE_KEY as int] != 0 {
        let k = keys[SIDE_KEY as int];
        let a = pieces_hash(keys, p.squares@, 64);
        let rights = p.castle_rights.spec_bits();
        let c = right_key(keys, rights, 4, 769) ^ right_key(keys, rights, 8, 770) ^ right_key(keys, rights, 1, 771)
            ^ right_key(keys, rights, 2, 772);
        let e = match p.enpassant_square {
            Some(sq) => keys[EN_PASSANT_KEYS + sq.spec_x()],
            None => 0u64,
        };
        assert((a ^ k ^ right_key(keys, rights, 4, 769) ^ right_key(keys, rights, 8, 770) ^ right_key(
            keys,
            rights,
            1,
            771,
        ) ^ right_key(keys, rights, 2, 772) ^ e) != (a ^ 0u64 ^ right_key(keys, rights, 4, 769) ^ right_key(
            keys,
            rights,
            8,
            770,
        ) ^ right_key(keys, rights, 1, 771) ^ right_key(keys, rights, 2, 772) ^ e)) by {
            let r1 = right_key(keys, rights, 4, 769);
            let r2 = right_key(keys, rights, 8, 770);
            let r3 = right_key(keys, rights, 1, 771);
            let r4 = right_key(keys, rights, 2, 772);
            assert((a ^ k ^ r1 ^ r2 ^ r3 ^ r4 ^ e) != (a ^ 0u64 ^ r1 ^ r2 ^ r3 ^ r4 ^ e)) by (bit_vector)
                requires
                    k != 0,
            ;
        }
    }
}

} // verus!
