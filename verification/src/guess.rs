//! A guess whose value is guaranteed to lie between 1 and 100.
//!
//! The range check lives in the constructor's contract, so every function
//! that takes a [`Guess`] may count on the range without checking again.

use vstd::prelude::*;

verus! {

/// A number between 1 and 100, vouched for by construction.
pub struct Guess {
    value: i32,
}

impl Guess {
    /// The number guessed.
    pub closed spec fn value_spec(&self) -> i32 {
        self.value
    }

    /// Wraps a number as a guess.  The caller owes a value in range; a
    /// host taking arbitrary input must check the range first and treat a
    /// value outside it as the hard error it is.
    pub fn new(value: i32) -> (g: Guess)
        requires
            1 <= value <= 100,
        ensures
            g.value_spec() == value,
    {
        Guess { value }
    }

    /// The number guessed, back as an `i32`.
    pub fn value(&self) -> (v: i32)
        ensures
            v == self.value_spec(),
    {
        self.value
    }
}

} // verus!
