use oxide_core::pieces::{ColoredPiece, Piece};
use oxide_core::side::Side;

#[test]
fn const_pieces_list_is_same_as_count() {
    assert_eq!(Piece::pieces().len(), Piece::COUNT);
}

#[test]
fn const_colored_pieces_list_is_same_as_count() {
    assert_eq!(ColoredPiece::colored_pieces().len(), ColoredPiece::COUNT);
}

#[test]
fn white_uncolor_works() {
    assert_eq!(ColoredPiece::WPawn.uncolor(), Piece::Pawn, "White pawn failed to uncolor");
    assert_eq!(ColoredPiece::WBishop.uncolor(), Piece::Bishop, "White bishop failed to uncolor");
    assert_eq!(ColoredPiece::WRook.uncolor(), Piece::Rook, "White rook failed to uncolor");
    assert_eq!(ColoredPiece::WKing.uncolor(), Piece::King, "White king failed to uncolor");
    assert_eq!(ColoredPiece::WKnight.uncolor(), Piece::Knight, "White knight failed to uncolor");
    assert_eq!(ColoredPiece::WQueen.uncolor(), Piece::Queen, "White queen failed to uncolor");
}

#[test]
fn black_uncolor_works() {
    assert_eq!(ColoredPiece::BPawn.uncolor(), Piece::Pawn, "Black pawn failed to uncolor");
    assert_eq!(ColoredPiece::BBishop.uncolor(), Piece::Bishop, "Black bishop failed to uncolor");
    assert_eq!(ColoredPiece::BRook.uncolor(), Piece::Rook, "Black rook failed to uncolor");
    assert_eq!(ColoredPiece::BKing.uncolor(), Piece::King, "Black king failed to uncolor");
    assert_eq!(ColoredPiece::BKnight.uncolor(), Piece::Knight, "Black knight failed to uncolor");
    assert_eq!(ColoredPiece::BQueen.uncolor(), Piece::Queen, "Black queen failed to uncolor");
}

#[test]
fn white_color_works() {
    assert_eq!(Piece::Pawn.color(Side::WHITE), ColoredPiece::WPawn, "Pawn failed to color white");
    assert_eq!(Piece::Bishop.color(Side::WHITE), ColoredPiece::WBishop, "Bishop failed to color white");
    assert_eq!(Piece::Rook.color(Side::WHITE), ColoredPiece::WRook, "Rook failed to color white");
    assert_eq!(Piece::King.color(Side::WHITE), ColoredPiece::WKing, "King failed to color white");
    assert_eq!(Piece::Knight.color(Side::WHITE), ColoredPiece::WKnight, "Knight failed to color white");
    assert_eq!(Piece::Queen.color(Side::WHITE), ColoredPiece::WQueen, "Queen failed to color white");
}

#[test]
fn black_color_works() {
    assert_eq!(Piece::Pawn.color(Side::BLACK), ColoredPiece::BPawn, "Pawn failed to color black");
    assert_eq!(Piece::Bishop.color(Side::BLACK), ColoredPiece::BBishop, "Bishop failed to color black");
    assert_eq!(Piece::Rook.color(Side::BLACK), ColoredPiece::BRook, "Rook failed to color black");
    assert_eq!(Piece::King.color(Side::BLACK), ColoredPiece::BKing, "King failed to color black");
    assert_eq!(Piece::Knight.color(Side::BLACK), ColoredPiece::BKnight, "Knight failed to color black");
    assert_eq!(Piece::Queen.color(Side::BLACK), ColoredPiece::BQueen, "Queen failed to color black");
}

#[test]
fn white_from_works() {
    assert_eq!(ColoredPiece::from('P'), ColoredPiece::WPawn, "Failed to get white pawn from character");
    assert_eq!(ColoredPiece::from('B'), ColoredPiece::WBishop, "Failed to get white bishop from character");
    assert_eq!(ColoredPiece::from('R'), ColoredPiece::WRook, "Failed to get white rook from character");
    assert_eq!(ColoredPiece::from('K'), ColoredPiece::WKing, "Failed to get white king from character");
    assert_eq!(ColoredPiece::from('N'), ColoredPiece::WKnight, "Failed to get white knight from character");
    assert_eq!(ColoredPiece::from('Q'), ColoredPiece::WQueen, "Failed to get white queen from character");
}

#[test]
fn black_from_works() {
    assert_eq!(ColoredPiece::from('p'), ColoredPiece::BPawn, "Failed to get black pawn from character");
    assert_eq!(ColoredPiece::from('b'), ColoredPiece::BBishop, "Failed to get black bishop from character");
    assert_eq!(ColoredPiece::from('r'), ColoredPiece::BRook, "Failed to get black rook from character");
    assert_eq!(ColoredPiece::from('k'), ColoredPiece::BKing, "Failed to get black king from character");
    assert_eq!(ColoredPiece::from('n'), ColoredPiece::BKnight, "Failed to get black knight from character");
    assert_eq!(ColoredPiece::from('q'), ColoredPiece::BQueen, "Failed to get black queen from character");
}

#[test]
fn white_to_ascii_works() {
    assert_eq!(ColoredPiece::WPawn.to_ascii(), 'P', "Failed to get correct ascii representation for white pawn");
    assert_eq!(ColoredPiece::WBishop.to_ascii(), 'B', "Failed to get correct ascii representation for white bishop");
    assert_eq!(ColoredPiece::WRook.to_ascii(), 'R', "Failed to get correct ascii representation for white rook");
    assert_eq!(ColoredPiece::WKing.to_ascii(), 'K', "Failed to get correct ascii representation for white king");
    assert_eq!(ColoredPiece::WKnight.to_ascii(), 'N', "Failed to get correct ascii representation for white knight");
    assert_eq!(ColoredPiece::WQueen.to_ascii(), 'Q', "Failed to get correct ascii representation for white queen");
}

#[test]
fn black_to_ascii_works() {
    assert_eq!(ColoredPiece::BPawn.to_ascii(), 'p', "Failed to get correct ascii representation for black pawn");
    assert_eq!(ColoredPiece::BBishop.to_ascii(), 'b', "Failed to get correct ascii representation for black bishop");
    assert_eq!(ColoredPiece::BRook.to_ascii(), 'r', "Failed to get correct ascii representation for black rook");
    assert_eq!(ColoredPiece::BKing.to_ascii(), 'k', "Failed to get correct ascii representation for black king");
    assert_eq!(ColoredPiece::BKnight.to_ascii(), 'n', "Failed to get correct ascii representation for black knight");
    assert_eq!(ColoredPiece::BQueen.to_ascii(), 'q', "Failed to get correct ascii representation for black queen");
}

#[test]
fn side_works() {
    assert_eq!(ColoredPiece::WPawn.side(), Side::WHITE, "Failed to get correct side for white pawn");
    assert_eq!(ColoredPiece::BPawn.side(), Side::BLACK, "Failed to get correct side for black pawn");
    assert_eq!(ColoredPiece::WKnight.side(), Side::WHITE, "Failed to get correct side for white knight");
    assert_eq!(ColoredPiece::BKnight.side(), Side::BLACK, "Failed to get correct side for black knight");
    assert_eq!(ColoredPiece::WRook.side(), Side::WHITE, "Failed to get correct side for white rook");
    assert_eq!(ColoredPiece::BRook.side(), Side::BLACK, "Failed to get correct side for black rook");
    assert_eq!(ColoredPiece::WBishop.side(), Side::WHITE, "Failed to get correct side for white bishop");
    assert_eq!(ColoredPiece::BBishop.side(), Side::BLACK, "Failed to get correct side for black bishop");
    assert_eq!(ColoredPiece::WQueen.side(), Side::WHITE, "Failed to get correct side for white queen");
    assert_eq!(ColoredPiece::BQueen.side(), Side::BLACK, "Failed to get correct side for black queen");
    assert_eq!(ColoredPiece::WKing.side(), Side::WHITE, "Failed to get correct side for white king");
    assert_eq!(ColoredPiece::BKing.side(), Side::BLACK, "Failed to get correct side for black king");
}

#[test]
fn color_uncolor_round_trip() {
    for p in Piece::pieces() {
        for side in [Side::WHITE, Side::BLACK] {
            let c = p.color(side);
            assert_eq!(c.uncolor(), p);
            assert_eq!(c.side(), side);
            assert_eq!(ColoredPiece::from(c.to_ascii()), c);
        }
    }
    assert_eq!(ColoredPiece::from('x'), ColoredPiece::Empty);
}

#[test]
fn colored_piece_indices_are_distinct() {
    let all = ColoredPiece::colored_pieces();
    for (i, p) in all.iter().enumerate() {
        assert_eq!(p.index(), i);
    }
    assert_eq!(ColoredPiece::Empty.index(), 12);
}

#[test]
fn piece_from_char_ignores_case() {
    assert_eq!(Piece::from_char('P'), Piece::Pawn);
    assert_eq!(Piece::from_char('b'), Piece::Bishop);
    assert_eq!(Piece::from_char('R'), Piece::Rook);
    assert_eq!(Piece::from_char('k'), Piece::King);
    assert_eq!(Piece::from_char('N'), Piece::Knight);
    assert_eq!(Piece::from_char('q'), Piece::Queen);
}
