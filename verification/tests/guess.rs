use primer::Guess;

#[test]
fn guess_keeps_its_value() {
    assert_eq!(50, Guess::new(50).value());
    assert_eq!(1, Guess::new(1).value());
    assert_eq!(100, Guess::new(100).value());
}
