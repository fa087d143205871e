use primer::add_one;
use primer::generate_workout;
use primer::reroll;
use primer::roll_dice;
use primer::value_in_cents;
use primer::Coin;
use primer::HatAction;
use primer::Message;
use primer::UsState;
use primer::WorkoutPlan;

#[test]
fn coin_values() {
    assert_eq!(1, value_in_cents(Coin::Penny));
    assert_eq!(5, value_in_cents(Coin::Nickel));
    assert_eq!(10, value_in_cents(Coin::Dime));
    assert_eq!(25, value_in_cents(Coin::Quarter(UsState::Alaska)));
    assert_eq!(25, value_in_cents(Coin::Quarter(UsState::Alabama)));
}

#[test]
fn add_one_to_an_option() {
    assert_eq!(Some(7), add_one(Some(6)));
    assert_eq!(None, add_one(None));
}

#[test]
fn messages_can_be_called() {
    let m = Message::Write(String::from("hey"));
    m.call();
    Message::Quit.call();
    Message::Move { x: 1, y: 2 }.call();
    Message::ChangeColor(1, 2, 3).call();
}

#[test]
fn dice_rolls_and_rerolls() {
    assert_eq!(HatAction::AddFancyHat, roll_dice(3));
    assert_eq!(HatAction::RemoveFancyHat, roll_dice(7));
    assert_eq!(HatAction::Reroll(9), roll_dice(9));
    assert_eq!(8, reroll(9));

    // Rolling a nine and following the rules counts down until the seven
    // takes the hat away.
    let mut roll = 9;
    let mut steps = 0;
    loop {
        match roll_dice(roll) {
            HatAction::AddFancyHat => break,
            HatAction::RemoveFancyHat => break,
            HatAction::Reroll(value) => roll = reroll(value),
        }
        steps += 1;
    }
    assert_eq!(7, roll);
    assert_eq!(2, steps);
}

#[test]
fn workout_plans() {
    assert_eq!(WorkoutPlan::Strength(10), generate_workout(10, 7));
    assert_eq!(WorkoutPlan::Rest, generate_workout(30, 3));
    assert_eq!(WorkoutPlan::Cardio(30), generate_workout(30, 7));
}
