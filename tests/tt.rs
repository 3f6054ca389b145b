use oxide_core::chess_move::{ChessMove, Flags};
use oxide_core::square::named::{E2, E4, G1, F3};
use oxide_core::tt::{PVType, TranspositionEntry, TranspositionTable};

fn entry(key: u64, depth: u8, score: i32, node_type: PVType) -> TranspositionEntry {
    TranspositionEntry::new(key, ChessMove::new(E2, E4, Flags::DoublePawnPush), depth, score, node_type)
}

#[test]
fn new_table_is_empty() {
    let table = TranspositionTable::new(7);
    assert_eq!(table.capacity(), 7);
    assert_eq!(table.len(), 0);
    assert!(table.is_empty());
    assert_eq!(table.get(3), None);
}

#[test]
fn insert_then_probe() {
    let mut table = TranspositionTable::new(7);
    table.insert(10, entry(10, 4, 25, PVType::Lower));
    assert_eq!(table.len(), 1);
    assert_eq!(table.get(10), Some(entry(10, 4, 25, PVType::Lower)));
    // Key 17 maps to the same slot as 10 but is a different position.
    assert_eq!(table.get(17), None);
}

#[test]
fn pv_entry_overwrites_deeper_bound() {
    let mut table = TranspositionTable::new(7);
    table.insert(10, entry(10, 9, 25, PVType::Upper));
    table.insert(10, entry(10, 2, 30, PVType::PV));
    assert_eq!(table.get(10), Some(entry(10, 2, 30, PVType::PV)));
    assert_eq!(table.len(), 1);
}

#[test]
fn deeper_same_key_entry_overwrites() {
    let mut table = TranspositionTable::new(7);
    table.insert(10, entry(10, 3, 25, PVType::Lower));
    table.insert(10, entry(10, 5, 40, PVType::Lower));
    assert_eq!(table.get(10), Some(entry(10, 5, 40, PVType::Lower)));
    table.insert(10, entry(10, 5, 41, PVType::Upper));
    assert_eq!(table.get(10), Some(entry(10, 5, 41, PVType::Upper)));
}

#[test]
fn shallower_bound_keeps_existing() {
    let mut table = TranspositionTable::new(7);
    table.insert(10, entry(10, 6, 25, PVType::PV));
    table.insert(10, entry(10, 2, 40, PVType::Lower));
    assert_eq!(table.get(10), Some(entry(10, 6, 25, PVType::PV)));
}

#[test]
fn colliding_key_evicts() {
    let mut table = TranspositionTable::new(7);
    table.insert(10, entry(10, 12, 25, PVType::PV));
    table.insert(17, entry(17, 1, -5, PVType::Upper));
    assert_eq!(table.get(17), Some(entry(17, 1, -5, PVType::Upper)));
    assert_eq!(table.get(10), None);
    assert_eq!(table.len(), 1);
}

#[test]
fn clear_empties_the_table() {
    let mut table = TranspositionTable::new(5);
    table.insert(1, entry(1, 1, 1, PVType::PV));
    table.insert(2, entry(2, 1, 1, PVType::PV));
    table.insert(3, entry(3, 1, 1, PVType::PV));
    assert_eq!(table.entries().len(), 3);
    assert_eq!(table.clear(), 3);
    assert!(table.is_empty());
    assert_eq!(table.get(2), None);
    assert_eq!(table.entries().len(), 0);
}

#[test]
fn entry_getters() {
    let e = TranspositionEntry::new(99, ChessMove::new(G1, F3, Flags::Quiet), 7, -12, PVType::Upper);
    assert_eq!(e.key(), 99);
    assert_eq!(e.best_move(), ChessMove::new(G1, F3, Flags::Quiet));
    assert_eq!(e.depth(), 7);
    assert_eq!(e.score(), -12);
    assert_eq!(e.node_type(), PVType::Upper);
}

#[test]
fn single_slot_table() {
    let mut table = TranspositionTable::new(1);
    table.insert(5, entry(5, 3, 1, PVType::Lower));
    table.insert(6, entry(6, 1, 2, PVType::Upper));
    assert_eq!(table.len(), 1);
    assert_eq!(table.get(5), None);
    assert_eq!(table.get(6), Some(entry(6, 1, 2, PVType::Upper)));
    table.insert(u64::MAX, entry(u64::MAX, 0, 3, PVType::PV));
    assert_eq!(table.get(u64::MAX), Some(entry(u64::MAX, 0, 3, PVType::PV)));
}
