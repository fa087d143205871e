//! A quota tracker that warns through a caller-supplied messenger when a
//! value approaches or passes its limit.
//!
//! The messenger is a sink the user of the library implements; which
//! warning is due for a given value and limit is decided by verified code.

use vstd::prelude::*;

verus! {

/// A sink for warning messages.  Implementors choose what sending means: a
/// log line, a network call, or a test double that records the message.
pub trait Messenger {
    /// Delivers one message.
    fn send(&self, msg: &str);
}

/// The warning due when `value` stands against the limit `max`, measured by
/// the ratio `value / max`: the quota is used up entirely at a ratio of one
/// and nearly so at three quarters.  A limit of zero is exceeded by any
/// positive value and never by zero itself.
pub open spec fn quota_warning_spec(value: usize, max: usize) -> Option<Seq<char>> {
    if max == 0 {
        if value > 0 {
            Some("Error: You're over your quota."@)
        } else {
            None
        }
    } else if value >= max {
        Some("Error: You're over your quota."@)
    } else if 4 * value >= 3 * max {
        Some("You've used up 75% of your quota."@)
    } else {
        None
    }
}

/// The warning due for `value` against `max`, or nothing when the value is
/// comfortably below the limit.
pub fn quota_warning(value: usize, max: usize) -> (r: Option<&'static str>)
    ensures
        r is None <==> quota_warning_spec(value, max) is None,
        r matches Some(m) ==> quota_warning_spec(value, max) == Some(m@),
{
    if max == 0 {
        if value > 0 {
            Some("Error: You're over your quota.")
        } else {
            None
        }
    } else if value >= max {
        Some("Error: You're over your quota.")
    } else if 4 as u128 * value as u128 >= 3 as u128 * max as u128 {
        Some("You've used up 75% of your quota.")
    } else {
        None
    }
}

/// Watches a value against a limit and sends a warning through its
/// messenger whenever the value it is set to comes close to the limit.
pub struct LimitTracker<'a, T: Messenger> {
    messenger: &'a T,
    value: usize,
    max: usize,
}

impl<'a, T: Messenger> LimitTracker<'a, T> {
    /// The value most recently set.
    pub closed spec fn current(&self) -> usize {
        self.value
    }

    /// The limit this tracker watches.
    pub closed spec fn limit(&self) -> usize {
        self.max
    }

    /// A tracker over `messenger` with limit `max`, starting at zero.
    pub fn new(messenger: &T, max: usize) -> (t: LimitTracker<T>)
        ensures
            t.current() == 0,
            t.limit() == max,
    {
        LimitTracker { messenger, value: 0, max }
    }

    /// Records a new value and sends the warning it is due, if any.
    pub fn set_value(&mut self, value: usize)
        ensures
            final(self).current() == value,
            final(self).limit() == old(self).limit(),
    {
        self.value = value;
        match quota_warning(value, self.max) {
            Some(msg) => self.messenger.send(msg),
            None => (),
        }
    }
}

} // verus!
