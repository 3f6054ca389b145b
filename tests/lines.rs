use oxide_core::lines::{init_line_table, LineTable};
use oxide_core::square::masks::{A_FILE, RANK_1};
use oxide_core::square::named::{A1, A8, B3, C3, D4, E1, E4, E5, E8, H1, H8};

#[test]
fn line_fill_gives_the_whole_line() {
    let lines = init_line_table();
    assert_eq!(lines.line_fill(A1, H8), 0x8040201008040201);
    assert_eq!(lines.line_fill(H8, A1), 0x8040201008040201);
    assert_eq!(lines.line_fill(A1, A8), A_FILE);
    assert_eq!(lines.line_fill(A1, H1), RANK_1);
    assert_eq!(lines.line_fill(A1, B3), 0);
    assert_eq!(lines.line_fill(E4, E4), E4.mask());
}

#[test]
fn between_fill_gives_the_inner_squares() {
    let lines = LineTable::new();
    assert_eq!(lines.between_fill(A1, D4), 0x40200);
    assert_eq!(lines.between_fill(D4, A1), 0x40200);
    assert_eq!(lines.between_fill(E1, E8), 0x0010101010101000);
    assert_eq!(lines.between_fill(A1, C3), 0x200);
    assert_eq!(lines.between_fill(A1, B3), 0);
    assert_eq!(lines.between_fill(E4, E4), 0);
    assert_eq!(lines.between_fill(E4, E5), 0);
}

#[test]
fn aligned_works() {
    let lines = LineTable::new();
    assert!(lines.aligned(A1, H8, E5));
    assert!(!lines.aligned(A1, H8, E4));
    assert!(lines.aligned(E1, E8, E4));
    assert!(!lines.aligned(A1, B3, C3));
}
