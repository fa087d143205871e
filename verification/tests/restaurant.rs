use primer::Breakfast;

#[test]
fn summer_breakfast_takes_the_toast_order() {
    let mut meal = Breakfast::summer("Rye");
    assert_eq!("Rye", meal.toast);

    // The customer may change their toast after ordering.
    meal.toast = String::from("wheat");
    assert_eq!("wheat", meal.toast);
}
