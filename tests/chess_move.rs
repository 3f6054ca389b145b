use oxide_core::chess_move::{ChessMove, Flags};
use oxide_core::pieces::Piece;
use oxide_core::square::named::{C1, C8, E1, E2, E4, E7, E8, G1, G8};

#[test]
fn promotes_works() {
    assert!(!Flags::Quiet.promotes());
    assert!(!Flags::DoublePawnPush.promotes());
    assert!(!Flags::KingSideCastle.promotes());
    assert!(!Flags::QueenSideCastle.promotes());
    assert!(!Flags::Capture.promotes());
    assert!(!Flags::EnPassantCapture.promotes());
    assert!(Flags::KnightPromotion.promotes());
    assert!(Flags::BishopPromotion.promotes());
    assert!(Flags::RookPromotion.promotes());
    assert!(Flags::QueenPromotion.promotes());
    assert!(Flags::KnightPromotingCapture.promotes());
    assert!(Flags::BishopPromotingCapture.promotes());
    assert!(Flags::RookPromotingCapture.promotes());
    assert!(Flags::QueenPromotingCapture.promotes());
}

#[test]
fn for_promotion_works() {
    assert_eq!(Flags::for_promotion(Piece::Knight), Flags::KnightPromotion);
    assert_eq!(Flags::for_promotion(Piece::Rook), Flags::RookPromotion);
    assert_eq!(Flags::for_promotion(Piece::Queen), Flags::QueenPromotion);
    assert_eq!(Flags::for_promotion(Piece::Bishop), Flags::BishopPromotion);
}

#[test]
fn captures_works() {
    assert!(Flags::EnPassantCapture.captures());
    assert!(Flags::BishopPromotingCapture.captures());
    assert!(Flags::KnightPromotingCapture.captures());
    assert!(Flags::QueenPromotingCapture.captures());
    assert!(Flags::RookPromotingCapture.captures());
    assert!(Flags::Capture.captures());
    // Non captures are false
    assert!(!Flags::BishopPromotion.captures());
    assert!(!Flags::KnightPromotion.captures());
    assert!(!Flags::QueenPromotion.captures());
    assert!(!Flags::RookPromotion.captures());
    assert!(!Flags::Quiet.captures());
    assert!(!Flags::QueenSideCastle.captures());
    assert!(!Flags::KingSideCastle.captures());
    assert!(!Flags::DoublePawnPush.captures());
}

#[test]
fn promotion_works() {
    // Non promoting moves are none
    assert_eq!(Flags::QueenSideCastle.promotion(), Piece::Empty);
    assert_eq!(Flags::KingSideCastle.promotion(), Piece::Empty);
    assert_eq!(Flags::Quiet.promotion(), Piece::Empty);
    assert_eq!(Flags::Capture.promotion(), Piece::Empty);
    assert_eq!(Flags::EnPassantCapture.promotion(), Piece::Empty);
    assert_eq!(Flags::DoublePawnPush.promotion(), Piece::Empty);
    // Promotions are their pieces
    assert_eq!(Flags::BishopPromotingCapture.promotion(), Piece::Bishop);
    assert_eq!(Flags::KnightPromotingCapture.promotion(), Piece::Knight);
    assert_eq!(Flags::QueenPromotingCapture.promotion(), Piece::Queen);
    assert_eq!(Flags::RookPromotingCapture.promotion(), Piece::Rook);
    assert_eq!(Flags::BishopPromotion.promotion(), Piece::Bishop);
    assert_eq!(Flags::KnightPromotion.promotion(), Piece::Knight);
    assert_eq!(Flags::QueenPromotion.promotion(), Piece::Queen);
    assert_eq!(Flags::RookPromotion.promotion(), Piece::Rook);
}

#[test]
fn add_capture_works() {
    // Non captures become their capture counter-parts
    assert_eq!(Flags::Quiet.add_capture(), Flags::Capture);
    assert_eq!(Flags::RookPromotion.add_capture(), Flags::RookPromotingCapture);
    assert_eq!(Flags::BishopPromotion.add_capture(), Flags::BishopPromotingCapture);
    assert_eq!(Flags::QueenPromotion.add_capture(), Flags::QueenPromotingCapture);
    assert_eq!(Flags::KnightPromotion.add_capture(), Flags::KnightPromotingCapture);
    // Captures keep their captures
    assert_eq!(Flags::Capture.add_capture(), Flags::Capture);
    assert_eq!(Flags::EnPassantCapture.add_capture(), Flags::EnPassantCapture);
    assert_eq!(Flags::RookPromotingCapture.add_capture(), Flags::RookPromotingCapture);
    assert_eq!(Flags::BishopPromotingCapture.add_capture(), Flags::BishopPromotingCapture);
    assert_eq!(Flags::QueenPromotingCapture.add_capture(), Flags::QueenPromotingCapture);
    assert_eq!(Flags::KnightPromotingCapture.add_capture(), Flags::KnightPromotingCapture);
}

#[test]
fn remove_capture_works() {
    // Non captures become remain the same
    assert_eq!(Flags::Quiet.remove_capture(), Flags::Quiet);
    assert_eq!(Flags::RookPromotion.remove_capture(), Flags::RookPromotion);
    assert_eq!(Flags::BishopPromotion.remove_capture(), Flags::BishopPromotion);
    assert_eq!(Flags::QueenPromotion.remove_capture(), Flags::QueenPromotion);
    assert_eq!(Flags::KnightPromotion.remove_capture(), Flags::KnightPromotion);
    assert_eq!(Flags::KingSideCastle.remove_capture(), Flags::KingSideCastle);
    assert_eq!(Flags::QueenSideCastle.remove_capture(), Flags::QueenSideCastle);
    assert_eq!(Flags::DoublePawnPush.remove_capture(), Flags::DoublePawnPush);
    // Captures lose their captures
    assert_eq!(Flags::Capture.remove_capture(), Flags::Quiet);
    assert_eq!(Flags::EnPassantCapture.remove_capture(), Flags::Quiet);
    assert_eq!(Flags::RookPromotingCapture.remove_capture(), Flags::RookPromotion);
    assert_eq!(Flags::BishopPromotingCapture.remove_capture(), Flags::BishopPromotion);
    assert_eq!(Flags::QueenPromotingCapture.remove_capture(), Flags::QueenPromotion);
    assert_eq!(Flags::KnightPromotingCapture.remove_capture(), Flags::KnightPromotion);
}

#[test]
fn castles_work() {
    // Check the move's flags
    assert_eq!(ChessMove::white_king_castle().flags(), Flags::KingSideCastle);
    assert_eq!(ChessMove::black_king_castle().flags(), Flags::KingSideCastle);
    assert_eq!(ChessMove::white_queen_castle().flags(), Flags::QueenSideCastle);
    assert_eq!(ChessMove::black_queen_castle().flags(), Flags::QueenSideCastle);
    // Check the move's from
    assert_eq!(ChessMove::white_king_castle().from(), E1);
    assert_eq!(ChessMove::black_king_castle().from(), E8);
    assert_eq!(ChessMove::white_queen_castle().from(), E1);
    assert_eq!(ChessMove::black_queen_castle().from(), E8);
    // Check the move's to
    assert_eq!(ChessMove::white_king_castle().to(), G1);
    assert_eq!(ChessMove::black_king_castle().to(), G8);
    assert_eq!(ChessMove::white_queen_castle().to(), C1);
    assert_eq!(ChessMove::black_queen_castle().to(), C8);
}

#[test]
fn uci_text_works() {
    assert_eq!(ChessMove::new(E2, E4, Flags::DoublePawnPush).to_uci(), "e2e4");
    assert_eq!(ChessMove::new(E7, E8, Flags::QueenPromotion).to_uci(), "e7e8q");
    assert_eq!(ChessMove::new(E7, E8, Flags::KnightPromotingCapture).to_uci(), "e7e8n");
    assert_eq!(ChessMove::white_king_castle().to_uci(), "e1g1");
}
