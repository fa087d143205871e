//! The back of house of a small restaurant: a breakfast whose toast is the
//! customer's choice while the kitchen picks the fruit of the season.

use vstd::prelude::*;
use vstd::string::StringExecFns;

verus! {

/// A breakfast order.  The toast may be changed by the customer; the
/// seasonal fruit is the kitchen's alone, so a breakfast can only be made
/// through [`Breakfast::summer`].
pub struct Breakfast {
    pub toast: String,
    seasonal_fruit: String,
}

impl Breakfast {
    /// The toast as ordered.
    pub closed spec fn toast_choice(&self) -> Seq<char> {
        self.toast@
    }

    /// The fruit the kitchen put on the plate.
    pub closed spec fn fruit(&self) -> Seq<char> {
        self.seasonal_fruit@
    }

    /// A summer breakfast: the requested toast, served with peaches.
    pub fn summer(toast: &str) -> (b: Breakfast)
        ensures
            b.toast_choice() == toast@,
            b.fruit() == "peaches"@,
    {
        Breakfast { toast: String::from_str(toast), seasonal_fruit: String::from_str("peaches") }
    }
}

} // verus!
