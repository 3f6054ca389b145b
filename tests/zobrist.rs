use oxide_core::position::Position;
use oxide_core::side::Side;
use oxide_core::zobrist::{ZobristKeys, KEY_COUNT, SIDE_KEY};

const START: &str = "rnbqkbnr/pppppppp/8/8/8/8/PPPPPPPP/RNBQKBNR w KQkq - 0 1";

#[test]
fn hash_is_deterministic() {
    let keys = ZobristKeys::new();
    let position = Position::from_fen(START).unwrap();
    assert_eq!(keys.zobrist_hash(&position), keys.zobrist_hash(&position));
    let other_keys = ZobristKeys::new();
    assert_eq!(keys.zobrist_hash(&position), other_keys.zobrist_hash(&position));
}

#[test]
fn clocks_do_not_change_the_hash() {
    let keys = ZobristKeys::new();
    let a = Position::from_fen(START).unwrap();
    let b = Position::from_fen("rnbqkbnr/pppppppp/8/8/8/8/PPPPPPPP/RNBQKBNR w KQkq - 12 40").unwrap();
    assert_eq!(keys.zobrist_hash(&a), keys.zobrist_hash(&b));
}

#[test]
fn side_to_move_changes_the_hash() {
    let keys = ZobristKeys::new();
    let a = Position::from_fen(START).unwrap();
    let mut b = a;
    b.side = Side::BLACK;
    assert_ne!(keys.key(SIDE_KEY), 0);
    assert_ne!(keys.zobrist_hash(&a), keys.zobrist_hash(&b));
    assert_eq!(keys.zobrist_hash(&a) ^ keys.zobrist_hash(&b), keys.key(SIDE_KEY));
}

#[test]
fn hash_combines_the_keys() {
    let keys = ZobristKeys::new();
    assert_eq!(keys.zobrist_hash(&Position::default()), 0);
    let one = Position::from_fen("8/8/8/8/8/8/8/P7 w - - 0 1").unwrap();
    assert_eq!(keys.zobrist_hash(&one), keys.key(0));
    let castles = Position::from_fen("8/8/8/8/8/8/8/8 w K - 0 1").unwrap();
    assert_eq!(keys.zobrist_hash(&castles), keys.key(771));
    let en_passant = Position::from_fen("8/8/8/8/8/8/8/8 w - c3 0 1").unwrap();
    assert_eq!(keys.zobrist_hash(&en_passant), keys.key(775));
    assert_ne!(keys.key(0), keys.key(KEY_COUNT - 1));
}
