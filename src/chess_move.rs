//! Moves: the compact from/to/category form, and the full form that make and unmake use.
use vstd::prelude::*;

use crate::castles::CastlePermissions;
use crate::pieces::Piece;
use crate::side::Side;
use crate::square::named::{A1, A8, C1, C8, D1, D8, E1, E8, F1, F8, G1, G8, H1, H8};
use crate::square::{push_char, square_name, Square};

verus! {

/// The category of a compact move.
#[derive(Copy, Clone, PartialEq, Eq, Structural, Debug)]
pub enum Flags {
    Quiet,
    DoublePawnPush,
    KingSideCastle,
    QueenSideCastle,
    Capture,
    EnPassantCapture,
    KnightPromotion,
    BishopPromotion,
    RookPromotion,
    QueenPromotion,
    KnightPromotingCapture,
    BishopPromotingCapture,
    RookPromotingCapture,
    QueenPromotingCapture,
}

impl Flags {
    /// Whether the category takes a piece.
    pub open spec fn spec_captures(self) -> bool {
        match self {
            Flags::Capture | Flags::EnPassantCapture | Flags::KnightPromotingCapture
            | Flags::BishopPromotingCapture | Flags::RookPromotingCapture | Flags::QueenPromotingCapture => true,
            _ => false,
        }
    }

    /// The piece a pawn turns into; `Empty` for categories that do not promote.
    pub open spec fn spec_promotion(self) -> Piece {
        match self {
            Flags::KnightPromotion | Flags::KnightPromotingCapture => Piece::Knight,
            Flags::BishopPromotion | Flags::BishopPromotingCapture => Piece::Bishop,
            Flags::RookPromotion | Flags::RookPromotingCapture => Piece::Rook,
            Flags::QueenPromotion | Flags::QueenPromotingCapture => Piece::Queen,
            _ => Piece::Empty,
        }
    }

    /// The promotion category for a promoted piece, which must be a knight,
    /// bishop, rook or queen.
    pub fn for_promotion(piece: Piece) -> (r: Self)
        requires
            piece == Piece::Knight || piece == Piece::Bishop || piece == Piece::Rook || piece == Piece::Queen,
        ensures
            r.spec_promotion() == piece,
            !r.spec_captures(),
    {
        match piece {
            Piece::Bishop => Flags::BishopPromotion,
            Piece::Rook => Flags::RookPromotion,
            Piece::Knight => Flags::KnightPromotion,
            _ => Flags::QueenPromotion,
        }
    }

    /// Whether the category takes a piece.
    pub fn captures(&self) -> (r: bool)
        ensures
            r == self.spec_captures(),
    {
        match self {
            Flags::Capture | Flags::EnPassantCapture | Flags::KnightPromotingCapture
            | Flags::BishopPromotingCapture | Flags::RookPromotingCapture | Flags::QueenPromotingCapture => true,
            _ => false,
        }
    }

    /// The piece a pawn turns into; `Empty` when the category does not promote.
    pub fn promotion(&self) -> (r: Piece)
        ensures
            r == self.spec_promotion(),
    {
        match self {
            Flags::KnightPromotion | Flags::KnightPromotingCapture => Piece::Knight,
            Flags::BishopPromotion | Flags::BishopPromotingCapture => Piece::Bishop,
            Flags::RookPromotion | Flags::RookPromotingCapture => Piece::Rook,
            Flags::QueenPromotion | Flags::QueenPromotingCapture => Piece::Queen,
            _ => Piece::Empty,
        }
    }

    /// Whether the category promotes a pawn.
    pub fn promotes(&self) -> (r: bool)
        ensures
            r == (self.spec_promotion() != Piece::Empty),
    {
        match self {
            Flags::KnightPromotion | Flags::KnightPromotingCapture | Flags::BishopPromotion
            | Flags::BishopPromotingCapture | Flags::RookPromotion | Flags::RookPromotingCapture
            | Flags::QueenPromotion | Flags::QueenPromotingCapture => true,
            _ => false,
        }
    }

    /// The capturing form of the category; a double push or a castle cannot capture.
    pub fn add_capture(self) -> (r: Self)
        requires
            self != Flags::DoublePawnPush,
            self != Flags::KingSideCastle,
            self != Flags::QueenSideCastle,
        ensures
            r.spec_captures(),
            r.spec_promotion() == self.spec_promotion(),
            self.spec_captures() ==> r == self,
            self == Flags::Quiet ==> r == Flags::Capture,
    {
        match self {
            Flags::Quiet | Flags::Capture => Flags::Capture,
            Flags::EnPassantCapture => Flags::EnPassantCapture,
            Flags::KnightPromotion | Flags::KnightPromotingCapture => Flags::KnightPromotingCapture,
            Flags::BishopPromotion | Flags::BishopPromotingCapture => Flags::BishopPromotingCapture,
            Flags::RookPromotion | Flags::RookPromotingCapture => Flags::RookPromotingCapture,
            _ => Flags::QueenPromotingCapture,
        }
    }

    /// The non-capturing form of the category.
    pub fn remove_capture(&self) -> (r: Self)
        ensures
            !r.spec_captures(),
            r.spec_promotion() == self.spec_promotion(),
            !self.spec_captures() ==> r == *self,
            (*self == Flags::Capture || *self == Flags::EnPassantCapture) ==> r == Flags::Quiet,
    {
        match self {
            Flags::Quiet | Flags::Capture | Flags::EnPassantCapture => Flags::Quiet,
            Flags::DoublePawnPush => Flags::DoublePawnPush,
            Flags::KingSideCastle => Flags::KingSideCastle,
            Flags::QueenSideCastle => Flags::QueenSideCastle,
            Flags::KnightPromotion | Flags::KnightPromotingCapture => Flags::KnightPromotion,
            Flags::BishopPromotion | Flags::BishopPromotingCapture => Flags::BishopPromotion,
            Flags::RookPromotion | Flags::RookPromotingCapture => Flags::RookPromotion,
            Flags::QueenPromotion | Flags::QueenPromotingCapture => Flags::QueenPromotion,
        }
    }
}

/// The UCI letter of a promoted piece.
pub open spec fn promotion_letter(p: Piece) -> char {
    match p {
        Piece::Knight => 'n',
        Piece::Bishop => 'b',
        Piece::Rook => 'r',
        _ => 'q',
    }
}

/// A compact move: origin, destination and category.
#[derive(Copy, Clone, Debug, PartialEq, Eq, Structural)]
pub struct ChessMove {
    pub from: Square,
    pub to: Square,
    pub flags: Flags,
}

impl ChessMove {
    pub open spec fn spec_from(self) -> Square {
        self.from
    }

    pub open spec fn spec_to(self) -> Square {
        self.to
    }

    pub open spec fn spec_flags(self) -> Flags {
        self.flags
    }

    /// The UCI text of the move: origin, destination, then the promotion letter if any.
    pub open spec fn spec_uci(self) -> Seq<char> {
        square_name(self.from.spec_offset()) + square_name(self.to.spec_offset()) + if self.flags.spec_promotion()
            == Piece::Empty {
            Seq::<char>::empty()
        } else {
            seq![promotion_letter(self.flags.spec_promotion())]
        }
    }

    /// A move from `from` to `to` of category `flags`.
    pub fn new(from: Square, to: Square, flags: Flags) -> (r: Self)
        ensures
            r.spec_from() == from,
            r.spec_to() == to,
            r.spec_flags() == flags,
    {
        ChessMove { from, to, flags }
    }

    /// White's king-side castle, e1 to g1.
    pub fn white_king_castle() -> (r: Self)
        ensures
            r.spec_from() == E1 && r.spec_to() == G1 && r.spec_flags() == Flags::KingSideCastle,
    {
        ChessMove { from: E1, to: G1, flags: Flags::KingSideCastle }
    }

    /// White's queen-side castle, e1 to c1.
    pub fn white_queen_castle() -> (r: Self)
        ensures
            r.spec_from() == E1 && r.spec_to() == C1 && r.spec_flags() == Flags::QueenSideCastle,
    {
        ChessMove { from: E1, to: C1, flags: Flags::QueenSideCastle }
    }

    /// Black's king-side castle, e8 to g8.
    pub fn black_king_castle() -> (r: Self)
        ensures
            r.spec_from() == E8 && r.spec_to() == G8 && r.spec_flags() == Flags::KingSideCastle,
    {
        ChessMove { from: E8, to: G8, flags: Flags::KingSideCastle }
    }

    /// Black's queen-side castle, e8 to c8.
    pub fn black_queen_castle() -> (r: Self)
        ensures
            r.spec_from() == E8 && r.spec_to() == C8 && r.spec_flags() == Flags::QueenSideCastle,
    {
        ChessMove { from: E8, to: C8, flags: Flags::QueenSideCastle }
    }

    pub fn from(&self) -> (r: Square)
        ensures
            r == self.spec_from(),
    {
        self.from
    }

    pub fn to(&self) -> (r: Square)
        ensures
            r == self.spec_to(),
    {
        self.to
    }

    pub fn flags(&self) -> (r: Flags)
        ensures
            r == self.spec_flags(),
    {
        self.flags
    }

    /// The UCI long algebraic text of the move, such as `e2e4` or `e7e8q`.
    pub fn to_uci(&self) -> (r: String)
        ensures
            r@ == self.spec_uci(),
    {
        let mut s = self.from.name();
        let t = self.to.name();
        push_char(&mut s, t.get_char(0));
        push_char(&mut s, t.get_char(1));
        let p = self.flags.promotion();
        match p {
            Piece::Knight => push_char(&mut s, 'n'),
            Piece::Bishop => push_char(&mut s, 'b'),
            Piece::Rook => push_char(&mut s, 'r'),
            Piece::Queen => push_char(&mut s, 'q'),
            _ => {},
        }
        proof {
            assert(s@ =~= self.spec_uci());
        }
        s
    }
}

/// A move with what is needed to apply it to a position and to take it back
/// (together with the undo record the caller keeps).
#[derive(Copy, Clone, Debug, PartialEq, Eq, Structural)]
pub struct Move {
    /// The side that moves.
    pub side: Side,
    /// The kind of the moving piece.
    pub piece: Piece,
    pub from: Square,
    pub to: Square,
    /// The kind of the piece taken on `to`, if any (not for en passant).
    pub captured_piece: Option<Piece>,
    /// The kind a pawn turns into, if the move promotes.
    pub promoted_piece: Option<Piece>,
    /// The en-passant target after the move (set by a double pawn push).
    pub enpassant_square: Option<Square>,
    /// The castles the move performs.
    pub castles_used: CastlePermissions,
    /// Whether the move takes a pawn en passant.
    pub enpassant_capture: bool,
}

/// The category of a move, which decides how it changes the board.
#[derive(Copy, Clone, Debug, PartialEq, Eq, Structural)]
pub enum MoveKind {
    PromotingCapture,
    Capture,
    KingSideCastle,
    QueenSideCastle,
    EnPassant,
    Promotion,
    Quiet,
}

/// The rights that a move gives up: both of its side's when the king moves,
/// the one of a rook's home corner when that rook leaves it, and the castles it
/// performs.
pub open spec fn cleared_rights(m: Move) -> u8 {
    let white = m.side == Side::White;
    let o = m.from.spec_offset();
    (if m.piece == Piece::King {
        if white { 3u8 } else { 12u8 }
    } else {
        0u8
    }) | (if m.piece == Piece::Rook && white && o == 7 {
        1u8
    } else if m.piece == Piece::Rook && white && o == 0 {
        2u8
    } else if m.piece == Piece::Rook && !white && o == 63 {
        4u8
    } else if m.piece == Piece::Rook && !white && o == 56 {
        8u8
    } else {
        0u8
    }) | m.castles_used.spec_bits()
}

impl Move {
    /// The category of the move, tried in this order: promoting capture,
    /// capture, king-side castle, queen-side castle, en passant, promotion, quiet.
    pub open spec fn spec_kind(self) -> MoveKind {
        if self.captured_piece.is_some() && self.promoted_piece.is_some() {
            MoveKind::PromotingCapture
        } else if self.captured_piece.is_some() {
            MoveKind::Capture
        } else if self.castles_used.spec_bits() & 5 != 0 {
            MoveKind::KingSideCastle
        } else if self.castles_used.spec_bits() & 10 != 0 {
            MoveKind::QueenSideCastle
        } else if self.enpassant_capture {
            MoveKind::EnPassant
        } else if self.promoted_piece.is_some() {
            MoveKind::Promotion
        } else {
            MoveKind::Quiet
        }
    }

    /// The rights left after the move: the current ones without those it gives up.
    pub open spec fn spec_new_castle_permissions(self, current: CastlePermissions) -> CastlePermissions {
        CastlePermissions::spec_from_bits(current.spec_bits() & !cleared_rights(self))
    }

    /// The category of the move.
    pub fn kind(&self) -> (r: MoveKind)
        ensures
            r == self.spec_kind(),
    {
        if self.captured_piece.is_some() && self.promoted_piece.is_some() {
            MoveKind::PromotingCapture
        } else if self.captured_piece.is_some() {
            MoveKind::Capture
        } else if self.castles_used.intersects(CastlePermissions::BothKings) {
            MoveKind::KingSideCastle
        } else if self.castles_used.intersects(CastlePermissions::BothQueens) {
            MoveKind::QueenSideCastle
        } else if self.enpassant_capture {
            MoveKind::EnPassant
        } else if self.promoted_piece.is_some() {
            MoveKind::Promotion
        } else {
            MoveKind::Quiet
        }
    }

    /// The castle rights after this move, from the rights `current` before it.
    pub fn new_castle_permissions(&self, current: CastlePermissions) -> (r: CastlePermissions)
        ensures
            r.spec_bits() == current.spec_bits() & !cleared_rights(*self),
            r == self.spec_new_castle_permissions(current),
    {
        let white = match self.side {
            Side::White => true,
            Side::Black => false,
        };
        let o = self.from.offset();
        let king: u8 = if self.piece == Piece::King {
            if white { 3 } else { 12 }
        } else {
            0
        };
        let rook: u8 = if self.piece == Piece::Rook && white && o == 7 {
            1
        } else if self.piece == Piece::Rook && white && o == 0 {
            2
        } else if self.piece == Piece::Rook && !white && o == 63 {
            4
        } else if self.piece == Piece::Rook && !white && o == 56 {
            8
        } else {
            0
        };
        let cleared = king | rook | self.castles_used.bits();
        let b = current.bits();
        assert(b & !cleared < 16) by (bit_vector)
            requires
                b < 16,
        ;
        let r = CastlePermissions::from_bits(b & !cleared);
        proof {
            lemma_bits_determine_rights(r, CastlePermissions::spec_from_bits(b & !cleared));
        }
        r
    }

    /// White's king-side castle.
    pub fn white_king_castle() -> (r: Self)
        ensures
            r == Move::spec_castle(Side::White, true),
    {
        Move::castle(Side::White, E1, G1, CastlePermissions::WhiteKing)
    }

    /// White's queen-side castle.
    pub fn white_queen_castle() -> (r: Self)
        ensures
            r == Move::spec_castle(Side::White, false),
    {
        Move::castle(Side::White, E1, C1, CastlePermissions::WhiteQueen)
    }

    /// Black's king-side castle.
    pub fn black_king_castle() -> (r: Self)
        ensures
            r == Move::spec_castle(Side::Black, true),
    {
        Move::castle(Side::Black, E8, G8, CastlePermissions::BlackKing)
    }

    /// Black's queen-side castle.
    pub fn black_queen_castle() -> (r: Self)
        ensures
            r == Move::spec_castle(Side::Black, false),
    {
        Move::castle(Side::Black, E8, C8, CastlePermissions::BlackQueen)
    }

    /// The castle of `side`, king side or queen side.
    pub open spec fn spec_castle(side: Side, king_side: bool) -> Move {
        let white = side == Side::White;
        Move {
            side,
            piece: Piece::King,
            from: if white { E1 } else { E8 },
            to: if white {
                if king_side { G1 } else { C1 }
            } else {
                if king_side { G8 } else { C8 }
            },
            captured_piece: None,
            promoted_piece: None,
            enpassant_square: None,
            castles_used: if white {
                if king_side { CastlePermissions::WhiteKing } else { CastlePermissions::WhiteQueen }
            } else {
                if king_side { CastlePermissions::BlackKing } else { CastlePermissions::BlackQueen }
            },
            enpassant_capture: false,
        }
    }

    fn castle(side: Side, from: Square, to: Square, used: CastlePermissions) -> (r: Self)
        ensures
            r == (Move {
                side,
                piece: Piece::King,
                from,
                to,
                captured_piece: None,
                promoted_piece: None,
                enpassant_square: None,
                castles_used: used,
                enpassant_capture: false,
            }),
    {
        Move {
            side,
            piece: Piece::King,
            from,
            to,
            captured_piece: None,
            promoted_piece: None,
            enpassant_square: None,
            castles_used: used,
            enpassant_capture: false,
        }
    }
}

/// The rook squares of a castle: where the rook stands and where it goes.
pub open spec fn castle_rook_squares(side: Side, king_side: bool) -> (Square, Square) {
    if side == Side::White {
        if king_side { (H1, F1) } else { (A1, D1) }
    } else {
        if king_side { (H8, F8) } else { (A8, D8) }
    }
}

/// A set of rights is fixed by its bits.
pub proof fn lemma_bits_determine_rights(a: CastlePermissions, b: CastlePermissions)
    requires
        a.spec_bits() == b.spec_bits() || b == CastlePermissions::spec_from_bits(a.spec_bits()),
    ensures
        a == b,
{
    if b == CastlePermissions::spec_from_bits(a.spec_bits()) {
        assert(exists|c: CastlePermissions| c.spec_bits() == a.spec_bits());
    }
}

} // verus!
