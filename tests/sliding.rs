use oxide_core::attacks::sliding::{
    bishop_attacks_direct, bishop_occupancy_mask, get_attack_index, map_blocker_index_to_occupancy_mask,
    queen_attacks_direct, rook_attacks_direct, rook_occupancy_mask, SlidingAttacks,
};
use oxide_core::attacks::{init_attacks, pseudo_attacks};
use oxide_core::pieces::Piece;
use oxide_core::square::named::{A1, F3, F5};
use oxide_core::square::Square;

#[test]
fn rook_occupancy_mask_table_works() {
    assert_eq!(rook_occupancy_mask(Square::new(0)), 0x101010101017e);
    assert_eq!(rook_occupancy_mask(Square::new(37)), 0x20205e20202000);
    assert_eq!(rook_occupancy_mask(Square::new(14)), 0x40404040403e00);
    assert_eq!(rook_occupancy_mask(Square::new(9)), 0x2020202027c00);
}

#[test]
fn bishop_occupancy_mask_table_works() {
    assert_eq!(bishop_occupancy_mask(Square::new(0)), 0x40201008040200);
    assert_eq!(bishop_occupancy_mask(Square::new(63)), 0x40201008040200);
    assert_eq!(bishop_occupancy_mask(Square::new(63)), 0x40201008040200);
    assert_eq!(bishop_occupancy_mask(Square::new(7)), 0x2040810204000);
    assert_eq!(bishop_occupancy_mask(Square::new(56)), 0x2040810204000);
    assert_eq!(bishop_occupancy_mask(Square::new(37)), 0x8500050080400);
}

#[test]
fn map_blocker_index_to_occupancy_mask_works() {
    assert_eq!(map_blocker_index_to_occupancy_mask(0x0, 0x8080808080807e), 0x0);
    assert_eq!(map_blocker_index_to_occupancy_mask(0xfff, 0x8080808080807e), 0x8080808080807e);
    assert_eq!(map_blocker_index_to_occupancy_mask(0x9ff, 0x8080808080807e), 0x8000008080807e);
    assert_eq!(map_blocker_index_to_occupancy_mask(0x841, 0x8080808080807e), 0x80000000008002);
    assert_eq!(map_blocker_index_to_occupancy_mask(0x1, 0x50005008040200), 0x200);
    assert_eq!(map_blocker_index_to_occupancy_mask(0xff, 0x50005008040200), 0x50005008040200);
    assert_eq!(map_blocker_index_to_occupancy_mask(0xf0, 0x50005008040200), 0x50004000000000);
}

#[test]
fn get_attack_index_works() {
    assert_eq!(get_attack_index(0x8000008080807e, 0x8080808080807e), 0x9ff);
    assert_eq!(get_attack_index(0xffffffffffffffff, 0x50005008040200), 0x7f);
    assert_eq!(get_attack_index(0x0, 0x50005008040200), 0x0);
}

#[test]
fn rook_magic_attacks_lookup_works() {
    let tables = SlidingAttacks::new();
    assert_eq!(tables.rook_attacks(F3, 0x200000), 0x2020202020df2020);
}

#[test]
fn bishop_magic_attacks_lookup_works() {
    let tables = SlidingAttacks::new();
    assert_eq!(tables.bishop_attacks(F5, 0x2000000000), 0x488500050880402);
}

#[test]
fn blocker_counts_match_the_fixed_table_sizes() {
    let rook_counts: [u32; 64] = [
        12, 11, 11, 11, 11, 11, 11, 12, 11, 10, 10, 10, 10, 10, 10, 11, 11, 10, 10, 10, 10, 10, 10, 11, 11, 10, 10,
        10, 10, 10, 10, 11, 11, 10, 10, 10, 10, 10, 10, 11, 11, 10, 10, 10, 10, 10, 10, 11, 11, 10, 10, 10, 10, 10,
        10, 11, 12, 11, 11, 11, 11, 11, 11, 12,
    ];
    let bishop_counts: [u32; 64] = [
        6, 5, 5, 5, 5, 5, 5, 6, 5, 5, 5, 5, 5, 5, 5, 5, 5, 5, 7, 7, 7, 7, 5, 5, 5, 5, 7, 9, 9, 7, 5, 5, 5, 5, 7, 9,
        9, 7, 5, 5, 5, 5, 7, 7, 7, 7, 5, 5, 5, 5, 5, 5, 5, 5, 5, 5, 6, 5, 5, 5, 5, 5, 5, 6,
    ];
    for o in 0..64u8 {
        let sq = Square::new(o);
        assert_eq!(rook_occupancy_mask(sq).count_ones(), rook_counts[o as usize]);
        assert_eq!(bishop_occupancy_mask(sq).count_ones(), bishop_counts[o as usize]);
        assert_eq!(rook_occupancy_mask(sq) & sq.mask(), 0);
    }
}

fn next_random(state: &mut u64) -> u64 {
    *state ^= *state << 13;
    *state ^= *state >> 7;
    *state ^= *state << 17;
    *state
}

#[test]
fn magic_lookup_agrees_with_occluded_fill() {
    let tables = init_attacks();
    let mut state = 0x9E3779B97F4A7C15u64;
    for o in 0..64u8 {
        let sq = Square::new(o);
        for _ in 0..10_000 {
            let occupied = next_random(&mut state) & next_random(&mut state);
            assert_eq!(tables.rook_attacks(sq, occupied), rook_attacks_direct(sq, occupied));
            assert_eq!(tables.bishop_attacks(sq, occupied), bishop_attacks_direct(sq, occupied));
            assert_eq!(tables.queen_attacks(sq, occupied), queen_attacks_direct(sq, occupied));
        }
    }
}

#[test]
fn pseudo_attacks_dispatch_by_piece() {
    let tables = SlidingAttacks::new();
    assert_eq!(pseudo_attacks(&tables, Piece::Rook, F3, 0x200000), 0x2020202020df2020);
    assert_eq!(pseudo_attacks(&tables, Piece::Bishop, F5, 0x2000000000), 0x488500050880402);
    assert_eq!(pseudo_attacks(&tables, Piece::Knight, A1, 0), 0x20400);
    assert_eq!(
        pseudo_attacks(&tables, Piece::Queen, A1, 0),
        rook_attacks_direct(A1, 0) | bishop_attacks_direct(A1, 0)
    );
}
