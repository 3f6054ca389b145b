use oxide_core::bitboard;
use oxide_core::square::masks::{A_FILE, H_FILE};

#[test]
fn shift_north_works() {
    assert_eq!(bitboard::north_shift(0x3040a1024408800), 0x40a102440880000);
    assert_eq!(bitboard::north_shift(0xffffffffffffffff), 0xffffffffffffff00);
    assert_eq!(bitboard::north_shift(0x0), 0x0);
}

#[test]
fn shift_south_works() {
    assert_eq!(bitboard::south_shift(0x3040a1024408800), 0x3040a10244088);
    assert_eq!(bitboard::south_shift(0xffffffffffffffff), 0xffffffffffffff);
    assert_eq!(bitboard::south_shift(0x0), 0x0);
}

#[test]
fn shift_east_works() {
    assert_eq!(bitboard::east_shift(0x3040a1024408800), 0x608142048801000);
    assert_eq!(bitboard::east_shift(0xffffffffffffffff), 0xfefefefefefefefe);
    assert_eq!(bitboard::east_shift(0x0), 0x0);
}

#[test]
fn shift_west_works() {
    assert_eq!(bitboard::west_shift(0x3040a1024408800), 0x102050812204400);
    assert_eq!(bitboard::west_shift(0xffffffffffffffff), 0x7f7f7f7f7f7f7f7f);
    assert_eq!(bitboard::west_shift(0x0), 0x0);
}

#[test]
fn shift_north_east_works() {
    assert_eq!(bitboard::north_east_shift(0x3040a1024408800), 0x814204880100000);
    assert_eq!(bitboard::north_east_shift(0xffffffffffffffff), 0xfefefefefefefe00);
    assert_eq!(bitboard::north_east_shift(0x0), 0x0);
}

#[test]
fn shift_north_west_works() {
    assert_eq!(bitboard::north_west_shift(0x3040a1024408800), 0x205081220440000);
    assert_eq!(bitboard::north_west_shift(0xffffffffffffffff), 0x7f7f7f7f7f7f7f00);
    assert_eq!(bitboard::north_west_shift(0x0), 0x0);
}

#[test]
fn shift_south_east_works() {
    assert_eq!(bitboard::south_east_shift(0x3040a1024408800), 0x6081420488010);
    assert_eq!(bitboard::south_east_shift(0xffffffffffffffff), 0xfefefefefefefe);
    assert_eq!(bitboard::south_east_shift(0x0), 0x0);
}

#[test]
fn shift_south_west_works() {
    assert_eq!(bitboard::south_west_shift(0x3040a1024408800), 0x1020508122044);
    assert_eq!(bitboard::south_west_shift(0xffffffffffffffff), 0x7f7f7f7f7f7f7f);
    assert_eq!(bitboard::south_west_shift(0x0), 0x0);
}

#[test]
fn fill_north_works() {
    assert_eq!(bitboard::north_fill(0x3040a1024408800), 0xfffefefcecc88800);
    assert_eq!(bitboard::north_fill(0xffffffffffffffff), 0xffffffffffffffff);
    assert_eq!(bitboard::north_fill(0x0), 0x0);
}

#[test]
fn fill_south_works() {
    assert_eq!(bitboard::south_fill(0x3040a1024408800), 0x3070f1f3f7fffff);
    assert_eq!(bitboard::south_fill(0xffffffffffffffff), 0xffffffffffffffff);
    assert_eq!(bitboard::south_fill(0x0), 0x0);
}

#[test]
fn fill_east_works() {
    assert_eq!(bitboard::east_fill(0x3040a1024408800), 0xfffcfef0fcc0f800);
    assert_eq!(bitboard::east_fill(0xffffffffffffffff), 0xffffffffffffffff);
    assert_eq!(bitboard::east_fill(0x0), 0x0);
}

#[test]
fn fill_west_works() {
    assert_eq!(bitboard::west_fill(0x3040a1024408800), 0x3070f1f3f7fff00);
    assert_eq!(bitboard::west_fill(0xffffffffffffffff), 0xffffffffffffffff);
    assert_eq!(bitboard::west_fill(0x0), 0x0);
}

#[test]
fn fill_occluded_north_works() {
    assert_eq!(bitboard::north_occluded_fill(0x100020004000800, 0xfcfbf5efdbbf77ff), 0x102060c0c080800);
    assert_eq!(bitboard::north_occluded_fill(0x8142242418000000, 0x5abdc3dbe7ffffff), 0xc366243c18000000);
    assert_eq!(bitboard::north_occluded_fill(0x0, 0x0), 0x0);
    assert_eq!(bitboard::north_occluded_fill(0x0, 0xffffffffffffffff), 0x0);
}

#[test]
fn fill_occluded_south_works() {
    assert_eq!(bitboard::south_occluded_fill(0x204081020408000, 0xfcfbf5efdbbf77ff), 0x2060c1c3878f0f0);
    assert_eq!(bitboard::south_occluded_fill(0x8142242418000000, 0x7ebd5bdbe7bfc7fb), 0x81c367677f3f0703);
    assert_eq!(bitboard::south_occluded_fill(0x0, 0x0), 0x0);
    assert_eq!(bitboard::south_occluded_fill(0x0, 0xffffffffffffffff), 0x0);
}

#[test]
fn fill_occluded_east_works() {
    assert_eq!(bitboard::east_occluded_fill(0x100020004000800, 0xfcfbf5efdbbf77ff), 0x10006001c007800);
    assert_eq!(bitboard::east_occluded_fill(0x102040418000000, 0x7ebddbdbe7ffffff), 0x7f3e1c1cf8000000);
    assert_eq!(bitboard::east_occluded_fill(0x0, 0x0), 0x0);
    assert_eq!(bitboard::east_occluded_fill(0x0, 0xffffffffffffffff), 0x0);
}

#[test]
fn fill_occluded_west_works() {
    assert_eq!(bitboard::west_occluded_fill(0x204081020408000, 0xfcfbf5efdbbf77ff), 0x2070c1f387ff000);
    assert_eq!(bitboard::west_occluded_fill(0x8040202018000000, 0x7ebddbdbe7ffffff), 0xfe7c38381f000000);
    assert_eq!(bitboard::west_occluded_fill(0x0, 0x0), 0x0);
    assert_eq!(bitboard::west_occluded_fill(0x0, 0xffffffffffffffff), 0x0);
}

#[test]
fn fill_occluded_north_east_works() {
    assert_eq!(bitboard::north_east_occluded_fill(0x100020004000800, 0xfcfbf5efdbbf77ff), 0x4120120804100800);
    assert_eq!(bitboard::north_east_occluded_fill(0x102040418000000, 0x7ebddbdbe7ffffff), 0x351a0c1418000000);
    assert_eq!(bitboard::north_east_occluded_fill(0x0, 0x0), 0x0);
    assert_eq!(bitboard::north_east_occluded_fill(0x0, 0xffffffffffffffff), 0x0);
}

#[test]
fn fill_occluded_north_west_works() {
    assert_eq!(bitboard::north_west_occluded_fill(0x20408000, 0xfefbfdffdbbf77ff), 0x81020408000);
    assert_eq!(bitboard::north_west_occluded_fill(0x8040202018000000, 0x7ebddbdbe7ffffff), 0xac58302818000000);
    assert_eq!(bitboard::north_west_occluded_fill(0x0, 0x0), 0x0);
    assert_eq!(bitboard::north_west_occluded_fill(0x0, 0xffffffffffffffff), 0x0);
}

#[test]
fn fill_occluded_south_east_works() {
    assert_eq!(bitboard::south_east_occluded_fill(0x284582000000000, 0xfd7ba7dfffbbffff), 0x28458b060800000);
    assert_eq!(bitboard::south_east_occluded_fill(0x102040418000000, 0x7ebddbdbe7ffffff), 0x102040c183060c0);
    assert_eq!(bitboard::south_east_occluded_fill(0x0, 0x0), 0x0);
    assert_eq!(bitboard::south_east_occluded_fill(0x0, 0xffffffffffffffff), 0x0);
}

#[test]
fn fill_occluded_south_west_works() {
    assert_eq!(bitboard::south_west_occluded_fill(0x284582000000000, 0xfd7ba7dfffb3ffff), 0x2855a2d16030100);
    assert_eq!(bitboard::south_west_occluded_fill(0x8040202018000000, 0x7fbfdfdfe3fffdff), 0x80402030180c0402);
    assert_eq!(bitboard::south_west_occluded_fill(0x0, 0x0), 0x0);
    assert_eq!(bitboard::south_west_occluded_fill(0x0, 0xffffffffffffffff), 0x0);
}

#[test]
fn file_fill_works() {
    assert_eq!(bitboard::file_fill(0xff), 0xffffffffffffffff);
    assert_eq!(bitboard::file_fill(0x55), 0x5555555555555555);
    assert_eq!(bitboard::file_fill(0x4404004001041050), 0x5555555555555555);
    assert_eq!(bitboard::file_fill(0x28200200000), 0xa2a2a2a2a2a2a2a2);
}

#[test]
fn rank_fill_works() {
    assert_eq!(bitboard::rank_fill(0xff), 0xff);
    assert_eq!(bitboard::rank_fill(0x1008), 0xffff);
    assert_eq!(bitboard::rank_fill(0x4404004001041050), 0xffff00ffffffffff);
    assert_eq!(bitboard::rank_fill(0x28200200000), 0xffff00ff0000);
}

// Ray attacks
#[test]
fn south_ray_attacks_works() {
    assert_eq!(bitboard::south_ray_attacks(0x2000000000, 0xffffffdfffffffff), 0x20202020);
    assert_eq!(bitboard::south_ray_attacks(0x40020000000, 0xfffffbffdfffffff), 0x404242424);
    assert_eq!(bitboard::south_ray_attacks(0x2000400200000, 0xfffdfdfbffdffbdf), 0x20004042420);
    assert_eq!(bitboard::south_ray_attacks(0x2000400200000, 0xfff9fffbfbdeffdf), 0x20206022222);
}
#[test]
fn north_ray_attacks_works() {
    assert_eq!(bitboard::north_ray_attacks(0x400, 0xfffffffffffffbff), 0x404040404040000);
    assert_eq!(bitboard::north_ray_attacks(0x42000, 0xfffffffffffbdfff), 0x2424242424200000);
    assert_eq!(bitboard::north_ray_attacks(0x4200100, 0xfbffdffffbdefeff), 0x404242420010000);
}
#[test]
fn east_ray_attacks_works() {
    assert_eq!(bitboard::east_ray_attacks(0x10000000000000, 0xffefffffffffffff), 0xe0000000000000);
    assert_eq!(bitboard::east_ray_attacks(0x4000000080000, 0xfffbfffffff7ffff), 0xf8000000f00000);
    assert_eq!(bitboard::east_ray_attacks(0x10080000100000, 0xffefe7ffff6fffff), 0xe0100000e00000);
    assert_eq!(bitboard::east_ray_attacks(0x20000800000400, 0xdfdfffb7ffffebfb), 0xc0007000001800);
}
#[test]
fn west_ray_attacks_works() {
    assert_eq!(bitboard::west_ray_attacks(0x200000000000, 0xffffdfffffffffff), 0x1f0000000000);
    assert_eq!(bitboard::west_ray_attacks(0x8000000400000, 0xfff7ffffffbfffff), 0x70000003f0000);
    assert_eq!(bitboard::west_ray_attacks(0x800000000202000, 0xf6ffffffffcfdbff), 0x700000000101c00);
    assert_eq!(bitboard::west_ray_attacks(0x20000400200000, 0xffdfeffaffd7ffff), 0x1f000300180000);
}
#[test]
fn north_west_ray_attacks_works() {
    assert_eq!(bitboard::north_west_ray_attacks(0x2000000000, 0xffffffdfffffffff), 0x408100000000000);
    assert_eq!(bitboard::north_west_ray_attacks(0x2000080000, 0xffffffdffff7ffff), 0x408110204000000);
    assert_eq!(bitboard::north_west_ray_attacks(0x40100000001000, 0xdfbfeffdffffefff), 0x2408000204080000);
    assert_eq!(bitboard::north_west_ray_attacks(0x40100000001000, 0xbfbfefdffbffe7ff), 0x2408000004080000);
}
#[test]
fn north_east_ray_attacks_works() {
    assert_eq!(bitboard::north_east_ray_attacks(0x10000000, 0xffffffffefffffff), 0x80402000000000);
    assert_eq!(bitboard::north_east_ray_attacks(0x200200000, 0xfffffffdffdfffff), 0x1008048040000000);
    assert_eq!(bitboard::north_east_ray_attacks(0x40000042000, 0xeffffbeffffbdfff), 0x1008001088400000);
    assert_eq!(bitboard::north_east_ray_attacks(0x20008000010, 0xffffd9fff7bfffcf), 0x804201000402000);
}
#[test]
fn south_west_ray_attacks_works() {
    assert_eq!(bitboard::south_west_ray_attacks(0x1000000000, 0xffffffefffffffff), 0x8040201);
    assert_eq!(bitboard::south_west_ray_attacks(0x8000000100000, 0xfff7ffffffefffff), 0x40201000804);
    assert_eq!(bitboard::south_west_ray_attacks(0x4002000002000, 0xfffbffdffff7dfef), 0x20110080010);
    assert_eq!(bitboard::south_west_ray_attacks(0x4000088000000, 0xfffbfbff777fddff), 0x20100442200);
}
#[test]
fn south_east_ray_attacks_works() {
    assert_eq!(bitboard::south_east_ray_attacks(0x1000000000, 0xffffffefffffffff), 0x20408000);
    assert_eq!(bitboard::south_east_ray_attacks(0x100200000000, 0xffffeffdffffffff), 0x2044881020);
    assert_eq!(bitboard::south_east_ray_attacks(0x20040004000000, 0xffdffb7ffbdfffff), 0x408810281020);
    assert_eq!(bitboard::south_east_ray_attacks(0x220000020000, 0xffffdddfffd9dfff), 0x4488102408);
}
#[test]
fn cardinal_ray_attacks_works() {
    assert_eq!(bitboard::cardinal_ray_attacks(0x200000000000, 0xffffdfffffffffff), 0x2020df2020202020);
    assert_eq!(bitboard::cardinal_ray_attacks(0x200000040000, 0xffffdffffffbffff), 0x2424df2424fb2424);
    assert_eq!(bitboard::cardinal_ray_attacks(0x200204000000, 0xffdddff5ebfffbff), 0x426df2d3b262622);
    assert_eq!(bitboard::cardinal_ray_attacks(0x40000200100000, 0xffb7bff5fecfffff), 0x52ba521d122f1212);
}
#[test]
fn diagonal_ray_attacks_works() {
    assert_eq!(bitboard::diagonal_ray_attacks(0x80000000000, 0xfffff7ffffffffff), 0x2214001422418000);
    assert_eq!(bitboard::diagonal_ray_attacks(0x80000400000, 0xfffff7ffffbfffff), 0x22140814a241a010);
    assert_eq!(bitboard::diagonal_ray_attacks(0x42000002000, 0xffeffbdfeeffdfdf), 0x158b520ed9d00050);
    assert_eq!(bitboard::diagonal_ray_attacks(0x10000200000080, 0xdfeff3f9fe57ff7f), 0x28002d4085284000);
}

#[test]
fn east_and_west_shifts_never_wrap() {
    assert_eq!(bitboard::east_shift(H_FILE), 0);
    assert_eq!(bitboard::west_shift(A_FILE), 0);
    assert_eq!(bitboard::east_shift(0xffffffffffffffff) & A_FILE, 0);
    assert_eq!(bitboard::west_shift(0xffffffffffffffff) & H_FILE, 0);
    assert_eq!(bitboard::east_shift(0x80), 0);
    assert_eq!(bitboard::west_shift(0x100), 0);
}

#[test]
fn fills_cover_the_rays() {
    assert_eq!(bitboard::north_east_fill(0x1), 0x8040201008040201);
    assert_eq!(bitboard::south_west_fill(0x8000000000000000), 0x8040201008040201);
    assert_eq!(bitboard::north_west_fill(0x80), 0x0102040810204080);
    assert_eq!(bitboard::south_east_fill(0x0100000000000000), 0x0102040810204080);
    assert_eq!(bitboard::cardinal_fill(0x1), 0x01010101010101ff);
    assert_eq!(bitboard::diagonal_fill(0x1), 0x8040201008040201);
}
