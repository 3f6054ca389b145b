//! The mutation engine: making and unmaking moves on a position.
use vstd::prelude::*;

use crate::bitboard::has_bit;
use crate::castles::CastlePermissions;
use crate::chess_move::{castle_rook_squares, cleared_rights, lemma_bits_determine_rights, Move, MoveKind};
use crate::pieces::{ColoredPiece, Piece};
use crate::position::{lemma_index_injective, mailbox_agrees, Position};
use crate::side::Side;
use crate::square::named::{A1, A8, D1, D8, F1, F8, H1, H8};
use crate::square::{bit_mask, Square};

verus! {

/// The square of the pawn that an en-passant capture to `t` by `side` takes:
/// one rank behind the destination, towards the mover's own side.
pub open spec fn en_passant_victim(side: Side, t: int) -> int {
    if side == Side::White {
        t - 8
    } else {
        t + 8
    }
}

/// Side, clocks, rights and en-passant target are the same in both positions.
pub open spec fn same_state(a: Position, b: Position) -> bool {
    &&& a.side == b.side
    &&& a.fullmove_count == b.fullmove_count
    &&& a.halfmove_clock == b.halfmove_clock
    &&& a.castle_rights == b.castle_rights
    &&& a.enpassant_square == b.enpassant_square
}

/// Whether `m` can be applied to `p`: the moving piece stands on the origin,
/// and each square that the move's category fills is empty, and each square it
/// takes from holds the piece it takes.
pub open spec fn can_make(p: Position, m: Move) -> bool {
    let b = p.squares@;
    let f = m.from.spec_offset();
    let t = m.to.spec_offset();
    let mover = m.piece.spec_color(m.side);
    let opp = m.side.spec_opposite();
    &&& p.wf()
    &&& f != t
    &&& m.piece != Piece::Empty
    &&& match m.spec_kind() {
        MoveKind::PromotingCapture => b[f] == Piece::Pawn.spec_color(m.side) && m.captured_piece.unwrap()
            != Piece::Empty && b[t] == m.captured_piece.unwrap().spec_color(opp) && m.promoted_piece.unwrap()
            != Piece::Empty,
        MoveKind::Capture => b[f] == mover && m.captured_piece.unwrap() != Piece::Empty && b[t]
            == m.captured_piece.unwrap().spec_color(opp),
        MoveKind::KingSideCastle => castle_fits(b, m, true, false),
        MoveKind::QueenSideCastle => castle_fits(b, m, false, false),
        MoveKind::EnPassant => {
            let e = en_passant_victim(m.side, t);
            &&& 0 <= e < 64
            &&& e != f
            &&& e != t
            &&& b[f] == mover
            &&& b[t] == ColoredPiece::Empty
            &&& b[e] == Piece::Pawn.spec_color(opp)
        },
        MoveKind::Promotion => b[f] == Piece::Pawn.spec_color(m.side) && b[t] == ColoredPiece::Empty
            && m.promoted_piece.unwrap() != Piece::Empty,
        MoveKind::Quiet => b[f] == mover && b[t] == ColoredPiece::Empty,
    }
}

/// King and rook of a castle stand where the castle starts (or, `undone`,
/// where it ends), and the squares they move to are empty.
pub open spec fn castle_fits(b: Seq<ColoredPiece>, m: Move, king_side: bool, undone: bool) -> bool {
    let (rf, rt) = castle_rook_squares(m.side, king_side);
    let f = m.from.spec_offset();
    let t = m.to.spec_offset();
    let r1 = rf.spec_offset();
    let r2 = rt.spec_offset();
    let king = Piece::King.spec_color(m.side);
    let rook = Piece::Rook.spec_color(m.side);
    &&& f != r1 && f != r2 && t != r1 && t != r2
    &&& if undone {
        b[t] == king && b[f] == ColoredPiece::Empty && b[r2] == rook && b[r1] == ColoredPiece::Empty
    } else {
        b[f] == king && b[t] == ColoredPiece::Empty && b[r1] == rook && b[r2] == ColoredPiece::Empty
    }
}

/// The mailbox after `m`.
pub open spec fn spec_make_squares(b: Seq<ColoredPiece>, m: Move) -> Seq<ColoredPiece> {
    let f = m.from.spec_offset();
    let t = m.to.spec_offset();
    let mover = m.piece.spec_color(m.side);
    match m.spec_kind() {
        MoveKind::PromotingCapture => b.update(t, ColoredPiece::Empty).update(f, ColoredPiece::Empty).update(
            t,
            m.promoted_piece.unwrap().spec_color(m.side),
        ),
        MoveKind::Capture => b.update(t, ColoredPiece::Empty).update(f, ColoredPiece::Empty).update(t, mover),
        MoveKind::KingSideCastle | MoveKind::QueenSideCastle => {
            let (rf, rt) = castle_rook_squares(m.side, m.spec_kind() == MoveKind::KingSideCastle);
            b.update(f, ColoredPiece::Empty).update(t, Piece::King.spec_color(m.side)).update(
                rf.spec_offset(),
                ColoredPiece::Empty,
            ).update(rt.spec_offset(), Piece::Rook.spec_color(m.side))
        },
        MoveKind::EnPassant => b.update(en_passant_victim(m.side, t), ColoredPiece::Empty).update(
            f,
            ColoredPiece::Empty,
        ).update(t, mover),
        MoveKind::Promotion => b.update(f, ColoredPiece::Empty).update(
            t,
            m.promoted_piece.unwrap().spec_color(m.side),
        ),
        MoveKind::Quiet => b.update(f, ColoredPiece::Empty).update(t, mover),
    }
}

/// The halfmove clock after `m`: zero after a pawn move, a capture or a change
/// of castle rights; otherwise one more (held at 255), counting from zero when unknown.
pub open spec fn spec_new_halfmove(p: Position, m: Move) -> u8 {
    if m.spec_new_castle_permissions(p.castle_rights) != p.castle_rights || m.captured_piece.is_some()
        || m.enpassant_capture || m.promoted_piece.is_some() || m.piece == Piece::Pawn {
        0
    } else {
        let h = p.halfmove_clock.unwrap_or(0);
        if h == 255 {
            255
        } else {
            (h + 1) as u8
        }
    }
}

/// `q` is `p` after the move `m`.
pub open spec fn made(p: Position, m: Move, q: Position) -> bool {
    &&& q.wf()
    &&& q.squares@ == spec_make_squares(p.squares@, m)
    &&& q.side == p.side.spec_opposite()
    &&& q.enpassant_square == m.enpassant_square
    &&& q.castle_rights == m.spec_new_castle_permissions(p.castle_rights)
    &&& q.halfmove_clock == Some(spec_new_halfmove(p, m))
    &&& q.fullmove_count == p.fullmove_count
}

/// Whether `m` can be taken back in `q`: the pieces stand where the move put them.
pub open spec fn can_unmake(q: Position, m: Move) -> bool {
    let b = q.squares@;
    let f = m.from.spec_offset();
    let t = m.to.spec_offset();
    let mover = m.piece.spec_color(m.side);
    &&& q.wf()
    &&& f != t
    &&& m.piece != Piece::Empty
    &&& match m.spec_kind() {
        MoveKind::PromotingCapture => b[t] == m.promoted_piece.unwrap().spec_color(m.side) && b[f]
            == ColoredPiece::Empty && m.captured_piece.unwrap() != Piece::Empty && m.promoted_piece.unwrap()
            != Piece::Empty,
        MoveKind::Capture => b[t] == mover && b[f] == ColoredPiece::Empty && m.captured_piece.unwrap()
            != Piece::Empty,
        MoveKind::KingSideCastle => castle_fits(b, m, true, true),
        MoveKind::QueenSideCastle => castle_fits(b, m, false, true),
        MoveKind::EnPassant => {
            let e = en_passant_victim(m.side, t);
            &&& 0 <= e < 64
            &&& e != f
            &&& e != t
            &&& b[t] == mover
            &&& b[f] == ColoredPiece::Empty
            &&& b[e] == ColoredPiece::Empty
        },
        MoveKind::Promotion => b[t] == m.promoted_piece.unwrap().spec_color(m.side) && b[f]
            == ColoredPiece::Empty && m.promoted_piece.unwrap() != Piece::Empty,
        MoveKind::Quiet => b[t] == mover && b[f] == ColoredPiece::Empty,
    }
}

/// The mailbox after taking `m` back.
pub open spec fn spec_unmake_squares(b: Seq<ColoredPiece>, m: Move) -> Seq<ColoredPiece> {
    let f = m.from.spec_offset();
    let t = m.to.spec_offset();
    let mover = m.piece.spec_color(m.side);
    let opp = m.side.spec_opposite();
    match m.spec_kind() {
        MoveKind::PromotingCapture => b.update(t, ColoredPiece::Empty).update(
            t,
            m.captured_piece.unwrap().spec_color(opp),
        ).update(f, Piece::Pawn.spec_color(m.side)),
        MoveKind::Capture => b.update(t, ColoredPiece::Empty).update(f, mover).update(
            t,
            m.captured_piece.unwrap().spec_color(opp),
        ),
        MoveKind::KingSideCastle | MoveKind::QueenSideCastle => {
            let (rf, rt) = castle_rook_squares(m.side, m.spec_kind() == MoveKind::KingSideCastle);
            b.update(t, ColoredPiece::Empty).update(f, Piece::King.spec_color(m.side)).update(
                rt.spec_offset(),
                ColoredPiece::Empty,
            ).update(rf.spec_offset(), Piece::Rook.spec_color(m.side))
        },
        MoveKind::EnPassant => b.update(t, ColoredPiece::Empty).update(f, mover).update(
            en_passant_victim(m.side, t),
            Piece::Pawn.spec_color(opp),
        ),
        MoveKind::Promotion => b.update(t, ColoredPiece::Empty).update(f, Piece::Pawn.spec_color(m.side)),
        MoveKind::Quiet => b.update(t, ColoredPiece::Empty).update(f, mover),
    }
}

/// `r` is `q` with `m` taken back, and side, rights, en-passant target and
/// halfmove clock restored from the undo record.
pub open spec fn unmade(
    q: Position,
    m: Move,
    prev_castle_permissions: CastlePermissions,
    prev_en_passant: Option<Square>,
    prev_half_move: Option<u8>,
    r: Position,
) -> bool {
    &&& r.wf()
    &&& r.squares@ == spec_unmake_squares(q.squares@, m)
    &&& r.side == q.side.spec_opposite()
    &&& r.castle_rights == prev_castle_permissions
    &&& r.enpassant_square == prev_en_passant
    &&& r.halfmove_clock == prev_half_move
    &&& r.fullmove_count == q.fullmove_count
}

/// Piece-level edits of a position that keep its representations in agreement.
pub trait MutablePosition: Sized {
    /// Whether `p` can be put on `to`: a real piece on an empty square.
    spec fn can_add(&self, p: ColoredPiece, to: Square) -> bool;

    /// `after` is this position with `p` put on `to`.
    spec fn added(&self, p: ColoredPiece, to: Square, after: Self) -> bool;

    /// Whether `p` can be taken off `from`: it stands there.
    spec fn can_remove(&self, p: ColoredPiece, from: Square) -> bool;

    /// `after` is this position with `p` taken off `from`.
    spec fn removed(&self, p: ColoredPiece, from: Square, after: Self) -> bool;

    /// Whether `p` can move from `from` to `to`: it stands on `from` and `to` is empty.
    spec fn can_move(&self, p: ColoredPiece, from: Square, to: Square) -> bool;

    /// `after` is this position with `p` moved from `from` to `to`.
    spec fn moved(&self, p: ColoredPiece, from: Square, to: Square, after: Self) -> bool;

    /// Puts `p` on the empty square `to`.
    fn add_piece(&mut self, p: ColoredPiece, to: Square)
        requires
            old(self).can_add(p, to),
        ensures
            old(self).added(p, to, *final(self)),
    ;

    /// Takes `p` off the square `from`.
    fn remove_piece(&mut self, p: ColoredPiece, from: Square)
        requires
            old(self).can_remove(p, from),
        ensures
            old(self).removed(p, from, *final(self)),
    ;

    /// Moves `p` from `from` to the empty square `to`.
    fn move_piece(&mut self, p: ColoredPiece, from: Square, to: Square)
        requires
            old(self).can_move(p, from, to),
        ensures
            old(self).moved(p, from, to, *final(self)),
    ;
}

/// Applying a move, and taking it back with an undo record.
pub trait MakeUnmakeBoard: Sized {
    /// Whether `m` can be applied to this position.
    spec fn can_make_move(&self, m: Move) -> bool;

    /// `after` is this position with `m` applied.
    spec fn move_made(&self, m: Move, after: Self) -> bool;

    /// Whether `m` can be taken back in this position.
    spec fn can_unmake_move(&self, m: Move) -> bool;

    /// `after` is this position with `m` taken back and the undo record restored.
    spec fn move_unmade(
        &self,
        m: Move,
        prev_castle_permissions: CastlePermissions,
        prev_en_passant: Option<Square>,
        prev_half_move: Option<u8>,
        after: Self,
    ) -> bool;

    /// Applies `m` in place.
    fn make_move(&mut self, m: &Move)
        requires
            old(self).can_make_move(*m),
        ensures
            old(self).move_made(*m, *final(self)),
            final(self).can_unmake_move(*m),
    ;

    /// Takes `m` back in place, restoring what the move alone cannot recover
    /// from the undo record.
    fn unmake_move(
        &mut self,
        m: &Move,
        prev_castle_permissions: CastlePermissions,
        prev_en_passant: Option<Square>,
        prev_half_move: Option<u8>,
    )
        requires
            old(self).can_unmake_move(*m),
        ensures
            old(self).move_unmade(*m, prev_castle_permissions, prev_en_passant, prev_half_move, *final(self)),
    ;
}

/// Applying a move to a copy.
pub trait CopyMakeBoard: Sized {
    /// Whether `m` can be applied to this position.
    spec fn can_copy_make(&self, m: Move) -> bool;

    /// `after` is this position with `m` applied.
    spec fn copy_made(&self, m: Move, after: Self) -> bool;

    /// This position with `m` applied, leaving this position as it was.
    fn make_move(self, m: &Move) -> (r: Self)
        requires
            self.can_copy_make(*m),
        ensures
            self.copy_made(*m, r),
    ;
}

impl MutablePosition for Position {
    open spec fn can_add(&self, p: ColoredPiece, to: Square) -> bool {
        self.wf() && p != ColoredPiece::Empty && self.squares@[to.spec_offset()] == ColoredPiece::Empty
    }

    open spec fn added(&self, p: ColoredPiece, to: Square, after: Position) -> bool {
        &&& after.wf()
        &&& after.squares@ == self.squares@.update(to.spec_offset(), p)
        &&& same_state(*self, after)
    }

    open spec fn can_remove(&self, p: ColoredPiece, from: Square) -> bool {
        self.wf() && p != ColoredPiece::Empty && self.squares@[from.spec_offset()] == p
    }

    open spec fn removed(&self, p: ColoredPiece, from: Square, after: Position) -> bool {
        &&& after.wf()
        &&& after.squares@ == self.squares@.update(from.spec_offset(), ColoredPiece::Empty)
        &&& same_state(*self, after)
    }

    open spec fn can_move(&self, p: ColoredPiece, from: Square, to: Square) -> bool {
        &&& self.wf()
        &&& p != ColoredPiece::Empty
        &&& from != to
        &&& self.squares@[from.spec_offset()] == p
        &&& self.squares@[to.spec_offset()] == ColoredPiece::Empty
    }

    open spec fn moved(&self, p: ColoredPiece, from: Square, to: Square, after: Position) -> bool {
        &&& after.wf()
        &&& after.squares@ == self.squares@.update(from.spec_offset(), ColoredPiece::Empty).update(to.spec_offset(), p)
        &&& same_state(*self, after)
    }

    /// Sets the square in the piece's bitboard and writes the mailbox slot.
    fn add_piece(&mut self, p: ColoredPiece, to: Square) {
        let ghost before = *self;
        let k = p.index();
        let t = to.offset();
        let bit = to.mask();
        self.piece_masks[k] = self.piece_masks[k] | bit;
        self.squares[t as usize] = p;
        proof {
            assert forall|s: u64, j: int| s < 64 && 0 <= j < 12 implies (#[trigger] has_bit(self.piece_masks@[j], s)
                <==> self.squares@[s as int].spec_index() == j) by {
                lemma_set_bit(before.piece_masks@[j], t as u64, s);
                assert(has_bit(before.piece_masks@[j], s) <==> before.squares@[s as int].spec_index() == j);
                assert(has_bit(before.piece_masks@[j], t as u64) <==> before.squares@[t as int].spec_index() == j);
            }
        }
    }

    /// Clears the square in the piece's bitboard and empties the mailbox slot.
    fn remove_piece(&mut self, p: ColoredPiece, from: Square) {
        let ghost before = *self;
        let k = p.index();
        let f = from.offset();
        let bit = from.mask();
        self.piece_masks[k] = self.piece_masks[k] & !bit;
        self.squares[f as usize] = ColoredPiece::Empty;
        proof {
            assert forall|s: u64, j: int| s < 64 && 0 <= j < 12 implies (#[trigger] has_bit(self.piece_masks@[j], s)
                <==> self.squares@[s as int].spec_index() == j) by {
                lemma_clear_bit(before.piece_masks@[j], f as u64, s);
                assert(has_bit(before.piece_masks@[j], s) <==> before.squares@[s as int].spec_index() == j);
            }
        }
    }

    /// Toggles both squares in the piece's bitboard at once and rewrites both
    /// mailbox slots.
    fn move_piece(&mut self, p: ColoredPiece, from: Square, to: Square) {
        let ghost before = *self;
        let k = p.index();
        let f = from.offset();
        let t = to.offset();
        proof {
            if f == t {
                crate::square::lemma_offset_injective(from, to);
            }
        }
        let bits = from.mask() ^ to.mask();
        self.piece_masks[k] = self.piece_masks[k] ^ bits;
        self.squares[f as usize] = ColoredPiece::Empty;
        self.squares[t as usize] = p;
        proof {
            assert forall|s: u64, j: int| s < 64 && 0 <= j < 12 implies (#[trigger] has_bit(self.piece_masks@[j], s)
                <==> self.squares@[s as int].spec_index() == j) by {
                lemma_toggle_bits(before.piece_masks@[j], f as u64, t as u64, s);
                assert(has_bit(before.piece_masks@[j], s) <==> before.squares@[s as int].spec_index() == j);
                assert(has_bit(before.piece_masks@[j], f as u64) <==> before.squares@[f as int].spec_index() == j);
                assert(has_bit(before.piece_masks@[j], t as u64) <==> before.squares@[t as int].spec_index() == j);
            }
        }
    }
}

impl MakeUnmakeBoard for Position {
    open spec fn can_make_move(&self, m: Move) -> bool {
        can_make(*self, m)
    }

    open spec fn move_made(&self, m: Move, after: Position) -> bool {
        made(*self, m, after)
    }

    open spec fn can_unmake_move(&self, m: Move) -> bool {
        can_unmake(*self, m)
    }

    open spec fn move_unmade(
        &self,
        m: Move,
        prev_castle_permissions: CastlePermissions,
        prev_en_passant: Option<Square>,
        prev_half_move: Option<u8>,
        after: Position,
    ) -> bool {
        unmade(*self, m, prev_castle_permissions, prev_en_passant, prev_half_move, after)
    }

    /// Updates the pieces by the move's category, sets the en-passant target
    /// from the move, narrows the castle rights, flips the side to move and
    /// advances or resets the halfmove clock.
    fn make_move(&mut self, m: &Move) {
        let ghost p0 = *self;
        let new_rights = m.new_castle_permissions(self.castle_rights);
        let rights_changed = new_rights != self.castle_rights;
        let side = m.side;
        let opp = side.opposite();
        match m.kind() {
            MoveKind::PromotingCapture => {
                let captured = m.captured_piece.unwrap();
                let promoted = m.promoted_piece.unwrap();
                self.remove_piece(captured.color(opp), m.to);
                self.remove_piece(Piece::Pawn.color(side), m.from);
                self.add_piece(promoted.color(side), m.to);
            },
            MoveKind::Capture => {
                let captured = m.captured_piece.unwrap();
                self.remove_piece(captured.color(opp), m.to);
                self.move_piece(m.piece.color(side), m.from, m.to);
            },
            MoveKind::KingSideCastle => {
                self.move_piece(Piece::King.color(side), m.from, m.to);
                match side {
                    Side::White => self.move_piece(ColoredPiece::WRook, H1, F1),
                    Side::Black => self.move_piece(ColoredPiece::BRook, H8, F8),
                }
            },
            MoveKind::QueenSideCastle => {
                self.move_piece(Piece::King.color(side), m.from, m.to);
                match side {
                    Side::White => self.move_piece(ColoredPiece::WRook, A1, D1),
                    Side::Black => self.move_piece(ColoredPiece::BRook, A8, D8),
                }
            },
            MoveKind::EnPassant => {
                let t = m.to.offset();
                let e = match side {
                    Side::White => t - 8,
                    Side::Black => t + 8,
                };
                self.remove_piece(Piece::Pawn.color(opp), Square::new(e));
                self.move_piece(m.piece.color(side), m.from, m.to);
            },
            MoveKind::Promotion => {
                let promoted = m.promoted_piece.unwrap();
                self.remove_piece(Piece::Pawn.color(side), m.from);
                self.add_piece(promoted.color(side), m.to);
            },
            MoveKind::Quiet => {
                self.move_piece(m.piece.color(side), m.from, m.to);
            },
        }
        self.enpassant_square = m.enpassant_square;
        self.side = self.side.opposite();
        let reset = rights_changed || m.captured_piece.is_some() || m.enpassant_capture
            || m.promoted_piece.is_some() || m.piece == Piece::Pawn;
        self.halfmove_clock = if reset {
            Some(0)
        } else {
            match self.halfmove_clock {
                Some(h) => Some(h.saturating_add(1)),
                None => Some(1),
            }
        };
        self.castle_rights = new_rights;
        proof {
            assert(self.squares@ =~= spec_make_squares(p0.squares@, *m));
        }
    }

    /// Reverses the move's change to the pieces, flips the side to move, and
    /// restores castle rights, en-passant target and halfmove clock from the
    /// undo record.
    fn unmake_move(
        &mut self,
        m: &Move,
        prev_castle_permissions: CastlePermissions,
        prev_en_passant: Option<Square>,
        prev_half_move: Option<u8>,
    ) {
        let ghost q0 = *self;
        self.enpassant_square = prev_en_passant;
        self.halfmove_clock = prev_half_move;
        self.castle_rights = prev_castle_permissions;
        self.side = self.side.opposite();
        let side = m.side;
        let opp = side.opposite();
        match m.kind() {
            MoveKind::PromotingCapture => {
                let captured = m.captured_piece.unwrap();
                let promoted = m.promoted_piece.unwrap();
                self.remove_piece(promoted.color(side), m.to);
                self.add_piece(captured.color(opp), m.to);
                self.add_piece(Piece::Pawn.color(side), m.from);
            },
            MoveKind::Capture => {
                let captured = m.captured_piece.unwrap();
                self.move_piece(m.piece.color(side), m.to, m.from);
                self.add_piece(captured.color(opp), m.to);
            },
            MoveKind::KingSideCastle => {
                self.move_piece(Piece::King.color(side), m.to, m.from);
                match side {
                    Side::White => self.move_piece(ColoredPiece::WRook, F1, H1),
                    Side::Black => self.move_piece(ColoredPiece::BRook, F8, H8),
                }
            },
            MoveKind::QueenSideCastle => {
                self.move_piece(Piece::King.color(side), m.to, m.from);
                match side {
                    Side::White => self.move_piece(ColoredPiece::WRook, D1, A1),
                    Side::Black => self.move_piece(ColoredPiece::BRook, D8, A8),
                }
            },
            MoveKind::EnPassant => {
                let t = m.to.offset();
                let e = match side {
                    Side::White => t - 8,
                    Side::Black => t + 8,
                };
                self.move_piece(m.piece.color(side), m.to, m.from);
                self.add_piece(Piece::Pawn.color(opp), Square::new(e));
            },
            MoveKind::Promotion => {
                let promoted = m.promoted_piece.unwrap();
                self.remove_piece(promoted.color(side), m.to);
                self.add_piece(Piece::Pawn.color(side), m.from);
            },
            MoveKind::Quiet => {
                self.move_piece(m.piece.color(side), m.to, m.from);
            },
        }
        proof {
            assert(self.squares@ =~= spec_unmake_squares(q0.squares@, *m));
        }
    }

}

impl CopyMakeBoard for Position {
    open spec fn can_copy_make(&self, m: Move) -> bool {
        can_make(*self, m)
    }

    open spec fn copy_made(&self, m: Move, after: Position) -> bool {
        made(*self, m, after)
    }

    fn make_move(self, m: &Move) -> (r: Position) {
        let mut r = self;
        MakeUnmakeBoard::make_move(&mut r, m);
        r
    }
}

/// Setting a square adds it and keeps the others.
proof fn lemma_set_bit(m: u64, t: u64, s: u64)
    requires
        t < 64,
        s < 64,
    ensures
        has_bit(m | (1u64 << t), s) == (s == t || has_bit(m, s)),
{
    assert(has_bit(m | (1u64 << t), s) == (s == t || has_bit(m, s))) by (bit_vector)
        requires
            t < 64,
            s < 64,
    ;
}

/// Clearing a square removes it and keeps the others.
proof fn lemma_clear_bit(m: u64, t: u64, s: u64)
    requires
        t < 64,
        s < 64,
    ensures
        has_bit(m & !(1u64 << t), s) == (s != t && has_bit(m, s)),
{
    assert(has_bit(m & !(1u64 << t), s) == (s != t && has_bit(m, s))) by (bit_vector)
        requires
            t < 64,
            s < 64,
    ;
}

/// Toggling two distinct squares flips them and keeps the others.
proof fn lemma_toggle_bits(m: u64, f: u64, t: u64, s: u64)
    requires
        f < 64,
        t < 64,
        s < 64,
        f != t,
    ensures
        has_bit(m ^ ((1u64 << f) ^ (1u64 << t)), s) == (if s == f || s == t {
            !has_bit(m, s)
        } else {
            has_bit(m, s)
        }),
{
    assert(has_bit(m ^ ((1u64 << f) ^ (1u64 << t)), s) == (if s == f || s == t {
        !has_bit(m, s)
    } else {
        has_bit(m, s)
    })) by (bit_vector)
        requires
            f < 64,
            t < 64,
            s < 64,
            f != t,
    ;
}


/// Two bitboards with the same squares set are the same bitboard.
pub proof fn lemma_bits_ext(a: u64, b: u64)
    requires
        forall|s: u64| s < 64 ==> #[trigger] has_bit(a, s) == has_bit(b, s),
    ensures
        a == b,
{
    lemma_shr_agree(a, b, 0);
    assert(a >> 0u64 == a && b >> 0u64 == b) by (bit_vector);
}

proof fn lemma_shr_agree(a: u64, b: u64, i: u64)
    requires
        i <= 63,
        forall|s: u64| s < 64 ==> #[trigger] has_bit(a, s) == has_bit(b, s),
    ensures
        a >> i == b >> i,
    decreases 63 - i,
{
    assert(has_bit(a, i) == has_bit(b, i));
    if i == 63 {
        assert(a >> 63u64 == b >> 63u64) by (bit_vector)
            requires
                has_bit(a, 63u64) == has_bit(b, 63u64),
        ;
    } else {
        lemma_shr_agree(a, b, (i + 1) as u64);
        assert(a >> i == b >> i) by (bit_vector)
            requires
                i < 63,
                a >> ((i + 1) as u64) == b >> ((i + 1) as u64),
                has_bit(a, i) == has_bit(b, i),
        ;
    }
}

/// The mailbox fixes the bitboards: two well-formed positions with the same
/// pieces on the same squares have the same bitboards.
pub proof fn lemma_masks_determined(p: Position, q: Position)
    requires
        p.wf(),
        q.wf(),
        p.squares@ == q.squares@,
    ensures
        p.piece_masks == q.piece_masks,
{
    assert forall|k: int| 0 <= k < 12 implies p.piece_masks@[k] == q.piece_masks@[k] by {
        assert forall|s: u64| s < 64 implies #[trigger] has_bit(p.piece_masks@[k], s) == has_bit(
            q.piece_masks@[k],
            s,
        ) by {
            assert(has_bit(p.piece_masks@[k], s) <==> p.squares@[s as int].spec_index() == k);
            assert(has_bit(q.piece_masks@[k], s) <==> q.squares@[s as int].spec_index() == k);
        }
        lemma_bits_ext(p.piece_masks@[k], q.piece_masks@[k]);
    }
    assert(p.piece_masks =~= q.piece_masks);
}

/// Making a move and then unmaking it with the undo record taken before the
/// move (castle rights, en-passant target, halfmove clock) gives back the
/// position exactly: bitboards, mailbox, side, rights, en-passant target and clocks.
pub proof fn lemma_make_unmake_round_trip(p: Position, m: Move, q: Position, r: Position)
    requires
        can_make(p, m),
        made(p, m, q),
        unmade(q, m, p.castle_rights, p.enpassant_square, p.halfmove_clock, r),
    ensures
        r == p,
{
    let b = p.squares@;
    let f = m.from.spec_offset();
    let t = m.to.spec_offset();
    match m.spec_kind() {
        MoveKind::KingSideCastle | MoveKind::QueenSideCastle => {
            let (rf, rt) = castle_rook_squares(m.side, m.spec_kind() == MoveKind::KingSideCastle);
            assert(r.squares@ =~= b);
        },
        _ => {
            assert(r.squares@ =~= b);
        },
    }
    lemma_masks_determined(r, p);
    assert(r.squares =~= p.squares);
}

} // verus!
