//! Coins, their values in cents, and a small message enum.

use vstd::prelude::*;

verus! {

/// A state that mints quarters.
#[derive(Clone, Copy, Debug, PartialEq, Eq, Structural)]
pub enum UsState {
    Alabama,
    Alaska,
}

/// A coin of the realm.
#[derive(Clone, Copy, Debug, PartialEq, Eq, Structural)]
pub enum Coin {
    Penny,
    Quarter(UsState),
    Nickel,
    Dime,
}

/// How many cents a coin is worth.
pub open spec fn coin_value(coin: Coin) -> u32 {
    match coin {
        Coin::Penny => 1,
        Coin::Quarter(_) => 25,
        Coin::Nickel => 5,
        Coin::Dime => 10,
    }
}

/// The value of `coin` in cents.
pub fn value_in_cents(coin: Coin) -> (r: u32)
    ensures
        r == coin_value(coin),
{
    match coin {
        Coin::Penny => 1,
        Coin::Quarter(_state) => 25,
        Coin::Nickel => 5,
        Coin::Dime => 10,
    }
}

/// A message a component might receive.
pub enum Message {
    Quit,
    Move { x: i32, y: i32 },
    Write(String),
    ChangeColor(i32, i32, i32),
}

impl Message {
    /// Receives the message.  No variant carries any behavior; the value
    /// itself is the whole of the news.
    pub fn call(&self) {
    }
}

/// What a roll of the dice earns.
#[derive(Clone, Copy, Debug, PartialEq, Eq, Structural)]
pub enum HatAction {
    /// A three: put on a fancy hat.
    AddFancyHat,
    /// A seven: take the fancy hat off.
    RemoveFancyHat,
    /// Anything else: announce the roll and roll again.
    Reroll(i32),
}

/// Decides what a roll of the dice earns: a three gains the fancy hat, a
/// seven loses it, and any other roll must be announced and rolled again.
/// The host performs the action and comes back with the next roll.
pub fn roll_dice(dice_roll: i32) -> (a: HatAction)
    ensures
        a == (if dice_roll == 3 {
            HatAction::AddFancyHat
        } else if dice_roll == 7 {
            HatAction::RemoveFancyHat
        } else {
            HatAction::Reroll(dice_roll)
        }),
{
    match dice_roll {
        3 => HatAction::AddFancyHat,
        7 => HatAction::RemoveFancyHat,
        _ => HatAction::Reroll(dice_roll),
    }
}

/// The next number to roll after an unlucky one: one less than before.
pub fn reroll(num: i32) -> (r: i32)
    requires
        num > i32::MIN,
    ensures
        r == num - 1,
{
    num - 1
}

/// One more than the given number, when there is one to add to.
pub fn add_one(num: Option<i8>) -> (r: Option<i8>)
    requires
        num matches Some(i) ==> i < i8::MAX,
    ensures
        r == (match num {
            Option::None => Option::<i8>::None,
            Option::Some(i) => Option::Some((i + 1) as i8),
        }),
{
    match num {
        None => None,
        Some(i) => Some(i + 1),
    }
}

} // verus!
