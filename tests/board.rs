use oxide_core::board::{CopyMakeBoard, MakeUnmakeBoard, MutablePosition};
use oxide_core::castles::CastlePermissions;
use oxide_core::chess_move::Move;
use oxide_core::pieces::{ColoredPiece, Piece};
use oxide_core::position::Position;
use oxide_core::side::Side;
use oxide_core::square::named::{A1, A7, A8, B8, C1, C8, D1, D4, D6, D8, E1, E2, E3, E4, E5, E8, F1, F3, F8, G1, G8, H1, H8};

#[test]
fn make_white_king_castle_works() {
    let mut position = Position::from_fen("rnbqkbnr/pppppppp/8/8/8/8/PPPPPPPP/RNBQK2R w KQkq - 0 1").unwrap();
    let m = Move::white_king_castle();
    MakeUnmakeBoard::make_move(&mut position, &m);
    // Removes old rook
    assert_eq!(position.squares[H1.offset() as usize], ColoredPiece::Empty);
    // Moved rook
    assert_eq!(position.squares[F1.offset() as usize], ColoredPiece::WRook);
    // Moved king
    assert_eq!(position.squares[G1.offset() as usize], ColoredPiece::WKing);
    // Removes old king
    assert_eq!(position.squares[E1.offset() as usize], ColoredPiece::Empty);
    // Updates WKing mask
    assert_eq!(position.piece_mask(ColoredPiece::WKing), 0x40);
    // Updates WRook mask
    assert_eq!(position.piece_mask(ColoredPiece::WRook), 0x21);
    // Update castle permissions
    assert_eq!(position.castle_rights, CastlePermissions::BLACK_ALL);
    // Reset half move clock
    assert_eq!(position.halfmove_clock, Some(0));
}

#[test]
fn unmake_white_king_castle_works() {
    let mut position = Position::from_fen("rnbqkbnr/pppppppp/8/8/8/8/PPPPPPPP/RNBQ1RK1 w Qkq - 3 1").unwrap();
    let m = Move::white_king_castle();
    MakeUnmakeBoard::unmake_move(&mut position, &m, CastlePermissions::ALL, None, Some(3));
    // Moved rook
    assert_eq!(position.squares[H1.offset() as usize], ColoredPiece::WRook);
    // Removes old rook
    assert_eq!(position.squares[F1.offset() as usize], ColoredPiece::Empty);
    // Removes old king
    assert_eq!(position.squares[G1.offset() as usize], ColoredPiece::Empty);
    // Moved king
    assert_eq!(position.squares[E1.offset() as usize], ColoredPiece::WKing);
    // Updates WKing mask
    assert_eq!(position.piece_mask(ColoredPiece::WKing), 0x10);
    // Updates WRook mask
    assert_eq!(position.piece_mask(ColoredPiece::WRook), 0x81);
    // Update castle permissions
    assert_eq!(position.castle_rights, CastlePermissions::ALL);
    // Update half move clock
    assert_eq!(position.halfmove_clock, Some(3));
}

#[test]
fn make_black_king_castle_works() {
    let mut position = Position::from_fen("rnbqk2r/pppppppp/8/8/8/8/PPPPPPPP/RNBQKBNR w KQkq - 0 1").unwrap();
    let m = Move::black_king_castle();
    MakeUnmakeBoard::make_move(&mut position, &m);
    // Removes old rook
    assert_eq!(position.squares[H8.offset() as usize], ColoredPiece::Empty);
    // Moved rook
    assert_eq!(position.squares[F8.offset() as usize], ColoredPiece::BRook);
    // Moved king
    assert_eq!(position.squares[G8.offset() as usize], ColoredPiece::BKing);
    // Removes old king
    assert_eq!(position.squares[E8.offset() as usize], ColoredPiece::Empty);
    // Updates BKing mask
    assert_eq!(position.piece_mask(ColoredPiece::BKing), 0x4000000000000000);
    // Updates BRook mask
    assert_eq!(position.piece_mask(ColoredPiece::BRook), 0x2100000000000000);
    // Update castle permissions
    assert_eq!(position.castle_rights, CastlePermissions::WHITE_ALL);
    // Reset half move clock
    assert_eq!(position.halfmove_clock, Some(0));
}

#[test]
fn make_white_queen_castle_works() {
    let mut position = Position::from_fen("rnbqkbnr/pppppppp/8/8/8/8/PPPPPPPP/R3KBNR w KQkq - 0 1").unwrap();
    let m = Move::white_queen_castle();
    MakeUnmakeBoard::make_move(&mut position, &m);
    // Removes old rook
    assert_eq!(position.squares[A1.offset() as usize], ColoredPiece::Empty);
    // Moved rook
    assert_eq!(position.squares[D1.offset() as usize], ColoredPiece::WRook);
    // Moved king
    assert_eq!(position.squares[C1.offset() as usize], ColoredPiece::WKing);
    // Removes old king
    assert_eq!(position.squares[E1.offset() as usize], ColoredPiece::Empty);
    // Updates WKing mask
    assert_eq!(position.piece_mask(ColoredPiece::WKing), 0x4);
    // Updates WRook mask
    assert_eq!(position.piece_mask(ColoredPiece::WRook), 0x88);
    // Update castle permissions
    assert_eq!(position.castle_rights, CastlePermissions::BLACK_ALL);
    // Reset half move clock
    assert_eq!(position.halfmove_clock, Some(0));
}

#[test]
fn unmake_white_queen_castle_works() {
    let mut position = Position::from_fen("rnbqkbnr/pppppppp/8/8/8/8/PPPPPPPP/2KR1BNR w Kkq - 0 1").unwrap();
    let m = Move::white_queen_castle();
    MakeUnmakeBoard::unmake_move(&mut position, &m, CastlePermissions::ALL, None, Some(33));
    // Moved rook
    assert_eq!(position.squares[A1.offset() as usize], ColoredPiece::WRook);
    // Removes old rook
    assert_eq!(position.squares[D1.offset() as usize], ColoredPiece::Empty);
    // Removes old king
    assert_eq!(position.squares[C1.offset() as usize], ColoredPiece::Empty);
    // Moved king
    assert_eq!(position.squares[E1.offset() as usize], ColoredPiece::WKing);
    // Updates WKing mask
    assert_eq!(position.piece_mask(ColoredPiece::WKing), 0x10);
    // Updates WRook mask
    assert_eq!(position.piece_mask(ColoredPiece::WRook), 0x81);
    // Update castle permissions
    assert_eq!(position.castle_rights, CastlePermissions::ALL);
    // Update half move clock
    assert_eq!(position.halfmove_clock, Some(33));
}

#[test]
fn make_black_queen_castle_works() {
    let mut position = Position::from_fen("r3kbnr/pppppppp/8/8/8/8/PPPPPPPP/RNBQKBNR w KQkq - 0 1").unwrap();
    let m = Move::black_queen_castle();
    MakeUnmakeBoard::make_move(&mut position, &m);
    // Removes old rook
    assert_eq!(position.squares[A8.offset() as usize], ColoredPiece::Empty);
    // Moved rook
    assert_eq!(position.squares[D8.offset() as usize], ColoredPiece::BRook);
    // Moved king
    assert_eq!(position.squares[C8.offset() as usize], ColoredPiece::BKing);
    // Removes old king
    assert_eq!(position.squares[E8.offset() as usize], ColoredPiece::Empty);
    // Updates WKing mask
    assert_eq!(position.piece_mask(ColoredPiece::BKing), 0x400000000000000);
    // Updates WRook mask
    assert_eq!(position.piece_mask(ColoredPiece::BRook), 0x8800000000000000);
    // Update castle permissions
    assert_eq!(position.castle_rights, CastlePermissions::WHITE_ALL);
    // Reset half move clock
    assert_eq!(position.halfmove_clock, Some(0));
}

#[test]
fn unmake_black_queen_castle_works() {
    let mut position = Position::from_fen("2kr1bnr/pppppppp/8/8/8/8/PPPPPPPP/RNBQKBNR w KQk - 0 1").unwrap();
    let m = Move::black_queen_castle();
    MakeUnmakeBoard::unmake_move(&mut position, &m, CastlePermissions::ALL, None, Some(33));
    // Moved rook
    assert_eq!(position.squares[A8.offset() as usize], ColoredPiece::BRook);
    // Removes old rook
    assert_eq!(position.squares[D8.offset() as usize], ColoredPiece::Empty);
    // Removes old king
    assert_eq!(position.squares[C8.offset() as usize], ColoredPiece::Empty);
    // Moved king
    assert_eq!(position.squares[E8.offset() as usize], ColoredPiece::BKing);
    // Updates WKing mask
    assert_eq!(position.piece_mask(ColoredPiece::BKing), 0x1000000000000000);
    // Updates WRook mask
    assert_eq!(position.piece_mask(ColoredPiece::BRook), 0x8100000000000000);
    // Update castle permissions
    assert_eq!(position.castle_rights, CastlePermissions::ALL);
    // Update half move clock
    assert_eq!(position.halfmove_clock, Some(33));
}

#[test]
fn make_unmake_preserves_equality() {
    let mut position = Position::from_fen("rnbqkbnr/pppppppp/8/8/8/8/PPPPPPPP/RNBQKBNR w KQkq - 0 1").unwrap();
    let m = Move {
        side: Side::WHITE,
        piece: Piece::Pawn,
        from: E2,
        to: E4,
        captured_piece: None,
        promoted_piece: None,
        enpassant_square: Some(E3),
        castles_used: Default::default(),
        enpassant_capture: false
    };
    MakeUnmakeBoard::make_move(&mut position, &m);
    MakeUnmakeBoard::unmake_move(&mut position, &m, CastlePermissions::ALL, None, Some(0));
    assert_eq!(position.to_fen(), "rnbqkbnr/pppppppp/8/8/8/8/PPPPPPPP/RNBQKBNR w KQkq - 0 1".to_string());
}

#[test]
fn copy_make_board_copies() {
    let position = Position::from_fen("8/8/8/8/8/8/4P3/8 w - - 0 1").unwrap();
    let m = Move {
        side: Side::WHITE,
        piece: Piece::Pawn,
        from: E2,
        to: E4,
        captured_piece: None,
        promoted_piece: None,
        enpassant_square: Some(E3),
        castles_used: Default::default(),
        enpassant_capture: false
    };
    let moved_position = CopyMakeBoard::make_move(position, &m);
    assert_eq!(moved_position.to_fen(), "8/8/8/8/4P3/8/8/8 b - e3 0 1".to_string(), "Updated FEN was not as expected after make move");
}

fn quiet(side: Side, piece: Piece, from: oxide_core::square::Square, to: oxide_core::square::Square) -> Move {
    Move {
        side,
        piece,
        from,
        to,
        captured_piece: None,
        promoted_piece: None,
        enpassant_square: None,
        castles_used: CastlePermissions::NONE,
        enpassant_capture: false,
    }
}

fn assert_round_trip(fen: &str, m: Move) {
    let before = Position::from_fen(fen).unwrap();
    let mut position = before;
    MakeUnmakeBoard::make_move(&mut position, &m);
    assert_ne!(position.to_fen(), before.to_fen());
    MakeUnmakeBoard::unmake_move(&mut position, &m, before.castle_rights, before.enpassant_square, before.halfmove_clock);
    assert_eq!(position.to_fen(), before.to_fen());
    assert_eq!(position.piece_masks, before.piece_masks);
    assert_eq!(position.squares, before.squares);
    assert_eq!(position.side, before.side);
    assert_eq!(position.castle_rights, before.castle_rights);
    assert_eq!(position.enpassant_square, before.enpassant_square);
    assert_eq!(position.halfmove_clock, before.halfmove_clock);
}

#[test]
fn double_push_from_start_position() {
    let mut position = Position::from_fen("rnbqkbnr/pppppppp/8/8/8/8/PPPPPPPP/RNBQKBNR w KQkq - 0 1").unwrap();
    let mut m = quiet(Side::WHITE, Piece::Pawn, E2, E4);
    m.enpassant_square = Some(E3);
    MakeUnmakeBoard::make_move(&mut position, &m);
    assert_eq!(position.to_fen(), "rnbqkbnr/pppppppp/8/8/4P3/8/PPPP1PPP/RNBQKBNR b KQkq e3 0 1");
}

#[test]
fn king_side_castle_clears_only_own_rights() {
    let mut position = Position::from_fen("rnbqkbnr/pppppppp/8/8/8/8/PPPPPPPP/RNBQK2R w KQkq - 7 1").unwrap();
    MakeUnmakeBoard::make_move(&mut position, &Move::white_king_castle());
    assert_eq!(position.castle_rights, CastlePermissions::BLACK_ALL);
    assert_eq!(position.halfmove_clock, Some(0));
    assert_eq!(position.to_fen(), "rnbqkbnr/pppppppp/8/8/8/8/PPPPPPPP/RNBQ1RK1 b kq - 0 1");
}

#[test]
fn rook_leaving_its_corner_clears_its_right() {
    let mut position = Position::from_fen("r3k2r/8/8/8/8/8/8/R3K2R b KQkq - 4 9").unwrap();
    MakeUnmakeBoard::make_move(&mut position, &quiet(Side::BLACK, Piece::Rook, A8, C8));
    assert_eq!(position.castle_rights, CastlePermissions::WHITE_ALL_BLACK_KING);
}

#[test]
fn quiet_move_increments_halfmove_clock() {
    let mut position = Position::from_fen("4k3/8/8/8/8/8/8/4K1N1 w - - 5 1").unwrap();
    MakeUnmakeBoard::make_move(&mut position, &quiet(Side::WHITE, Piece::Knight, G1, F3));
    assert_eq!(position.halfmove_clock, Some(6));
    assert_eq!(position.to_fen(), "4k3/8/8/8/8/5N2/8/4K3 b - - 6 1");
}

#[test]
fn make_unmake_round_trips_every_category() {
    // Quiet move.
    assert_round_trip("4k3/8/8/8/8/8/8/4K1N1 w - - 5 1", quiet(Side::WHITE, Piece::Knight, G1, F3));
    // Capture.
    let mut capture = quiet(Side::WHITE, Piece::Knight, G1, F3);
    capture.captured_piece = Some(Piece::Bishop);
    assert_round_trip("4k3/8/8/8/8/5b2/8/4K1N1 w - - 5 1", capture);
    // En passant.
    let mut en_passant = quiet(Side::WHITE, Piece::Pawn, E5, D6);
    en_passant.enpassant_capture = true;
    assert_round_trip("4k3/8/8/3pP3/8/8/8/4K3 w - d6 0 1", en_passant);
    // Black en passant.
    let mut black_en_passant = quiet(Side::BLACK, Piece::Pawn, D4, E3);
    black_en_passant.enpassant_capture = true;
    assert_round_trip("4k3/8/8/8/3pP3/8/8/4K3 b - e3 0 1", black_en_passant);
    // Promotion.
    let mut promotion = quiet(Side::WHITE, Piece::Pawn, A7, A8);
    promotion.promoted_piece = Some(Piece::Queen);
    assert_round_trip("4k3/P7/8/8/8/8/8/4K3 w - - 3 1", promotion);
    // Promoting capture.
    let mut promoting_capture = quiet(Side::WHITE, Piece::Pawn, A7, B8);
    promoting_capture.promoted_piece = Some(Piece::Knight);
    promoting_capture.captured_piece = Some(Piece::Rook);
    assert_round_trip("1r2k3/P7/8/8/8/8/8/4K3 w - - 3 1", promoting_capture);
    // Castles.
    assert_round_trip("r3k2r/8/8/8/8/8/8/R3K2R w KQkq - 2 1", Move::white_king_castle());
    assert_round_trip("r3k2r/8/8/8/8/8/8/R3K2R w KQkq - 2 1", Move::white_queen_castle());
    assert_round_trip("r3k2r/8/8/8/8/8/8/R3K2R b KQkq - 2 1", Move::black_king_castle());
    assert_round_trip("r3k2r/8/8/8/8/8/8/R3K2R b KQkq - 2 1", Move::black_queen_castle());
}

#[test]
fn en_passant_removes_the_passed_pawn() {
    let mut position = Position::from_fen("4k3/8/8/3pP3/8/8/8/4K3 w - d6 0 1").unwrap();
    let mut m = quiet(Side::WHITE, Piece::Pawn, E5, D6);
    m.enpassant_capture = true;
    MakeUnmakeBoard::make_move(&mut position, &m);
    assert_eq!(position.to_fen(), "4k3/8/3P4/8/8/8/8/4K3 b - - 0 1");
}

#[test]
fn promoting_capture_replaces_the_pawn() {
    let mut position = Position::from_fen("1r2k3/P7/8/8/8/8/8/4K3 w - - 3 1").unwrap();
    let mut m = quiet(Side::WHITE, Piece::Pawn, A7, B8);
    m.promoted_piece = Some(Piece::Knight);
    m.captured_piece = Some(Piece::Rook);
    MakeUnmakeBoard::make_move(&mut position, &m);
    assert_eq!(position.to_fen(), "1N2k3/8/8/8/8/8/8/4K3 b - - 0 1");
    assert_eq!(position.piece_mask(ColoredPiece::BRook), 0);
    assert_eq!(position.piece_mask(ColoredPiece::WPawn), 0);
}

#[test]
fn piece_edits_keep_mailbox_and_bitboards_together() {
    let mut position = Position::default();
    position.add_piece(ColoredPiece::WKnight, G1);
    assert_eq!(position.squares[G1.offset() as usize], ColoredPiece::WKnight);
    assert_eq!(position.piece_mask(ColoredPiece::WKnight), G1.mask());
    position.move_piece(ColoredPiece::WKnight, G1, F3);
    assert_eq!(position.squares[G1.offset() as usize], ColoredPiece::Empty);
    assert_eq!(position.squares[F3.offset() as usize], ColoredPiece::WKnight);
    assert_eq!(position.piece_mask(ColoredPiece::WKnight), F3.mask());
    position.remove_piece(ColoredPiece::WKnight, F3);
    assert_eq!(position.squares[F3.offset() as usize], ColoredPiece::Empty);
    assert_eq!(position.occupied_mask(), 0);
}

#[test]
fn halfmove_clock_holds_at_its_largest_value() {
    let mut position = Position::from_fen("4k3/8/8/8/8/8/8/4K1N1 w - - 255 1").unwrap();
    MakeUnmakeBoard::make_move(&mut position, &quiet(Side::WHITE, Piece::Knight, G1, F3));
    assert_eq!(position.halfmove_clock, Some(255));
    let mut unknown = Position::from_fen("4k3/8/8/8/8/8/8/4K1N1 w - - - 1").unwrap();
    assert_eq!(unknown.halfmove_clock, None);
    MakeUnmakeBoard::make_move(&mut unknown, &quiet(Side::WHITE, Piece::Knight, G1, F3));
    assert_eq!(unknown.halfmove_clock, Some(1));
}
