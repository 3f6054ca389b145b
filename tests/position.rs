use oxide_core::castles::CastlePermissions;
use oxide_core::errors::FenParseError;
use oxide_core::pieces::ColoredPiece;
use oxide_core::position::Position;
use oxide_core::side::Side;
use oxide_core::square::named::{A3, E3};

#[test]
fn default_is_empty() {
    let position: Position = Default::default();
    assert_eq!(position.occupied_mask(), 0, "Default position is not empty");
}

#[test]
fn default_fen_works() {
    let default_fen = String::from("rnbqkbnr/pppppppp/8/8/8/8/PPPPPPPP/RNBQKBNR w KQkq - 0 1");
    let position_result: Result<Position, FenParseError> = Position::from_fen(&default_fen);
    assert!(position_result.is_ok(), "Failed to parse default FEN {:?}", position_result.err().unwrap());

    let position = position_result.unwrap();
    assert_eq!(position.side, Side::White, "Default side was not white");
    assert_eq!(position.white_mask(), 0xffff, "Default white mask was incorrect");
    assert_eq!(position.black_mask(), 0xffff000000000000, "Default black mask was incorrect");
    assert_eq!(position.occupied_mask(), 0xffff00000000ffff, "Default occupied mask was incorrect");

    // Check piece masks
    assert_eq!(position.piece_mask(ColoredPiece::WKing), 0x10, "Default white king mask was incorrect");
    assert_eq!(position.piece_mask(ColoredPiece::BKing), 0x1000000000000000, "Default black king mask was incorrect");

    assert_eq!(position.piece_mask(ColoredPiece::WKnight), 0x42, "Default white knight mask was incorrect");
    assert_eq!(position.piece_mask(ColoredPiece::BKnight), 0x4200000000000000, "Default black knight mask was incorrect");

    assert_eq!(position.piece_mask(ColoredPiece::WBishop), 0x24, "Default white bishop mask was incorrect");
    assert_eq!(position.piece_mask(ColoredPiece::BBishop), 0x2400000000000000, "Default black bishop mask was incorrect");

    assert_eq!(position.piece_mask(ColoredPiece::WQueen), 0x8, "Default white queen mask was incorrect");
    assert_eq!(position.piece_mask(ColoredPiece::BQueen), 0x800000000000000, "Default black queen mask was incorrect");

    assert_eq!(position.piece_mask(ColoredPiece::WRook), 0x81, "Default white rook mask was incorrect");
    assert_eq!(position.piece_mask(ColoredPiece::BRook), 0x8100000000000000, "Default black rook mask was incorrect");

    assert_eq!(position.piece_mask(ColoredPiece::WPawn), 0xff00, "Default white pawn mask was incorrect");
    assert_eq!(position.piece_mask(ColoredPiece::BPawn), 0xff000000000000, "Default black pawn mask was incorrect");

    assert_eq!(position.castle_rights, CastlePermissions::ALL, "Default castle permissions were incorrect");

    // Sample a few squares from squares board to see if that is correct
    assert_eq!(position.squares[0], ColoredPiece::WRook, "White rook expected on a1");
    assert_eq!(position.squares[7], ColoredPiece::WRook, "White rook expected on h1");
    assert_eq!(position.squares[63], ColoredPiece::BRook, "Black rook expected on h8");
    assert_eq!(position.squares[56], ColoredPiece::BRook, "Black rook expected on a8");
    assert_eq!(position.squares[35], ColoredPiece::Empty, "None expected on d5");
    assert_eq!(position.squares[16], ColoredPiece::Empty, "None expected on a3");
    assert_eq!(position.squares[15], ColoredPiece::WPawn, "White pawn expected on a2");
    assert_eq!(position.squares[4], ColoredPiece::WKing, "White king expected on e1");
    assert_eq!(position.squares[60], ColoredPiece::BKing, "Black king expected on e8");
}

#[test]
fn fen_string_is_symmetric() {
    let fens = [
        "8/8/8/8/8/8/8/8 w KQkq - 0 1".to_string(),
        "8/8/8/8/8/8/8/8 b KQkq - 0 1".to_string(),
        "rnbqkbnr/pppppppp/8/8/8/8/PPPPPPPP/RNBQKBNR w KQkq - 0 1".to_string(),
        "rnbqkbnr/pppppppp/8/8/8/8/PPPPPPPP/RNBQKBNR w KQkq - 0 1".to_string(),
        "rnbqkbnr/pppQ2pp/8/8/8/8/PPPPPPPP/RNBQKBNR b KQkq - 0 1".to_string(),
        "rnbqkbnr/pppppppp/8/8/P7/8/1PPPPPPP/RNBQKBNR w KQkq - 0 1".to_string(),
        "8/8/8/8/8/8/p1p1p1p1/1p1p1p1p w - - 0 1".to_string(),
        "p6p/6p1/1p1p4/8/4p3/2p5/p4p1p/8 w - - 0 1".to_string(),
    ];
    for fen in &fens {
        let parse_result = Position::from_fen(fen);
        assert!(parse_result.is_ok(), "Failed to parse FEN '{}'", fen);
        let position = parse_result.unwrap();
        let output_fen: String = position.to_fen();
        assert_eq!(output_fen, fen.clone(), "Output FEN did not match input FEN\nExpected: '{}'\nFound:    '{}'", fen, output_fen);
    }
}

#[test]
fn fen_field_errors_are_reported() {
    assert!(matches!(Position::from_fen("8/8/8/8/8/8/8/8 w KQkq - 0"), Err(FenParseError::InvalidFenString(_))));
    assert!(matches!(
        Position::from_fen("8/8/8/8/8/8/8/8 x KQkq - 0 1"),
        Err(FenParseError::InvalidSideError(_, s)) if s == "x"
    ));
    assert!(matches!(
        Position::from_fen("8/8/8/8/8/8/8/8 w KQxq - 0 1"),
        Err(FenParseError::InvalidCastlesError(_, s)) if s == "KQxq"
    ));
    assert!(matches!(
        Position::from_fen("8/8/8/8/8/8/8/8 w qk - 0 1"),
        Err(FenParseError::InvalidCastlesError(_, _))
    ));
    assert!(matches!(
        Position::from_fen("8/8/8/8/8/8/8/8 w - e9 0 1"),
        Err(FenParseError::SquareParseError(_, s)) if s == "e9"
    ));
    assert!(matches!(Position::from_fen("8/8/8/8/8/8/8/9 w - - 0 1"), Err(FenParseError::InvalidFenString(_))));
    assert!(matches!(Position::from_fen("8/8/8/8/8/8/8 w - - 0 1"), Err(FenParseError::InvalidFenString(_))));
    assert!(matches!(Position::from_fen("8/8/8/8/8/8/8/7X w - - 0 1"), Err(FenParseError::InvalidFenString(_))));
}

#[test]
fn fen_clocks_and_en_passant_are_read() {
    let position = Position::from_fen("8/8/8/8/8/8/8/8 b Kq e3 17 42").unwrap();
    assert_eq!(position.side, Side::BLACK);
    assert_eq!(position.castle_rights, CastlePermissions::WHITE_KING_BLACK_QUEEN);
    assert_eq!(position.enpassant_square, Some(E3));
    assert_eq!(position.halfmove_clock, Some(17));
    assert_eq!(position.fullmove_count, 42);
    let unknown = Position::from_fen("8/8/8/8/8/8/8/8 w - - x y").unwrap();
    assert_eq!(unknown.halfmove_clock, None);
    assert_eq!(unknown.fullmove_count, 1);
    assert_eq!(unknown.to_fen(), "8/8/8/8/8/8/8/8 w - - 0 1");
    assert_eq!(Position::from_fen("8/8/8/8/8/8/8/8 w - - 300 70000").unwrap().halfmove_clock, None);
}

#[test]
fn piece_on_and_masks_agree() {
    let position = Position::from_fen("rnbqkbnr/pppppppp/8/8/8/8/PPPPPPPP/RNBQKBNR w KQkq - 0 1").unwrap();
    assert_eq!(position.piece_on(A3), ColoredPiece::Empty);
    assert_eq!(position.empty_mask(), 0x0000ffffffff0000);
    assert_eq!(position.piece_mask(ColoredPiece::Empty), 0x0000ffffffff0000);
    assert_eq!(Position::default().to_fen(), "8/8/8/8/8/8/8/8 w - - 0 1");
}

#[test]
fn fen_round_trip_with_every_field() {
    let fens = [
        "rnbqkbnr/pppp1ppp/8/4p3/4P3/8/PPPP1PPP/RNBQKBNR w KQkq e6 0 2",
        "r3k2r/p1ppqpb1/bn2pnp1/3PN3/1p2P3/2N2Q1p/PPPBBPPP/R3K2R b Qk - 12 99",
        "8/2p5/3p4/KP5r/1R3p1k/8/4P1P1/8 w - - 255 65535",
        "4k3/8/8/8/8/8/8/4K3 b q a3 7 10",
    ];
    for fen in fens {
        let position = Position::from_fen(fen).unwrap();
        assert_eq!(position.to_fen(), fen);
    }
}
