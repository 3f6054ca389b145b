use oxide_core::side::Side;

#[test]
fn opposite_works() {
    assert_eq!(Side::WHITE.opposite(), Side::BLACK);
    assert_eq!(Side::BLACK.opposite(), Side::WHITE);
}

#[test]
fn side_letters_and_names() {
    assert_eq!(Side::WHITE.to_char(), 'w');
    assert_eq!(Side::BLACK.to_char(), 'b');
    assert_eq!(Side::WHITE.name(), "white");
    assert_eq!(Side::BLACK.name(), "black");
    assert_eq!(Side::WHITE.index(), 0);
    assert_eq!(Side::BLACK.index(), 1);
    assert_eq!(Side::parse("w").unwrap(), Side::White);
    assert_eq!(Side::parse("b").unwrap(), Side::Black);
    assert!(Side::parse("W").is_err());
    assert!(Side::parse("white").is_err());
}
