use primer::five;

#[test]
fn five_is_five() {
    assert_eq!(5, five());
}
