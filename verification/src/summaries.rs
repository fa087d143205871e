//! Summaries of publishable items: a trait for one-line summaries and two
//! item kinds that provide them.

use vstd::prelude::*;
use vstd::std_specs::cmp::PartialOrdSpec;
use vstd::string::StringExecFns;

verus! {

/// Items that can describe themselves in one line.
pub trait Summary {
    /// The text this item summarizes to.
    spec fn summary_spec(&self) -> Seq<char>;

    /// Produces the one-line summary.
    fn summarize(&self) -> (r: String)
        ensures
            r@ == self.summary_spec(),
    ;
}

/// Items that can render themselves for display.
pub trait Displayer {
    /// Produces the display text.
    fn display(&self) -> String;
}

/// A news article with a byline.
pub struct NewsArticle {
    pub headline: String,
    pub location: String,
    pub author: String,
    pub content: String,
}

impl Summary for NewsArticle {
    open spec fn summary_spec(&self) -> Seq<char> {
        self.headline@ + ", by "@ + self.author@ + " ("@ + self.location@ + ")"@
    }

    fn summarize(&self) -> (r: String) {
        let mut r = self.headline.clone();
        r.append(", by ");
        r.append(self.author.as_str());
        r.append(" (");
        r.append(self.location.as_str());
        r.append(")");
        r
    }
}

/// A short message by a named user.
pub struct Tweet {
    pub username: String,
    pub content: String,
    pub reply: bool,
    pub retweet: bool,
}

impl Summary for Tweet {
    open spec fn summary_spec(&self) -> Seq<char> {
        self.username@ + ": "@ + self.content@
    }

    fn summarize(&self) -> (r: String) {
        let mut r = self.username.clone();
        r.append(": ");
        r.append(self.content.as_str());
        r
    }
}

/// A sample summarizable item.
pub fn returns_summarizable() -> (t: Tweet)
    ensures
        t.username@ == "mad_ficus"@,
        t.content@ == "elastica"@,
        !t.reply,
        !t.retweet,
{
    Tweet {
        username: String::from_str("mad_ficus"),
        content: String::from_str("elastica"),
        reply: false,
        retweet: false,
    }
}

/// The value a left-to-right scan of `s` from position `i` ends with when
/// it starts at `acc` and trades its candidate for any element that
/// compares strictly greater.
pub open spec fn largest_from<T: PartialOrd + PartialOrdSpec>(s: Seq<T>, i: int, acc: T) -> T
    decreases s.len() - i,
{
    if i < 0 || i >= s.len() {
        acc
    } else {
        largest_from(
            s,
            i + 1,
            if s[i].partial_cmp_spec(&acc) == Some(core::cmp::Ordering::Greater) {
                s[i]
            } else {
                acc
            },
        )
    }
}

/// The greatest element of a non-empty list, found by a single scan that
/// keeps whichever of the candidate and the next element compares greater.
pub fn largest<T: PartialOrd + PartialOrdSpec + Copy>(list: &Vec<T>) -> (r: T)
    requires
        list@.len() > 0,
        T::obeys_partial_cmp_spec(),
    ensures
        r == largest_from(list@, 0, list@[0]),
{
    let mut current = list[0];
    let mut i: usize = 0;
    while i < list.len()
        invariant
            list@.len() > 0,
            T::obeys_partial_cmp_spec(),
            0 <= i <= list@.len(),
            largest_from(list@, i as int, current) == largest_from(list@, 0, list@[0]),
        decreases list@.len() - i,
    {
        let item = list[i];
        if item > current {
            current = item;
        }
        i += 1;
    }
    current
}

/// Some number, for any displayable and cloneable pair of arguments.
pub fn some_func<T, U>(t: &T, u: &U) -> (r: i32)
    where
        T: Displayer + Clone,
        U: Clone + core::fmt::Debug,
    ensures
        r == 3,
{
    3
}

/// A pair of two values of one type.
pub struct Pair<T> {
    pub x: T,
    pub y: T,
}

impl<T> Pair<T> {
    /// The pair of `x` and `y`.
    pub fn new(x: T, y: T) -> (p: Self)
        ensures
            p.x == x,
            p.y == y,
    {
        Self { x, y }
    }
}

impl<T: PartialOrd + PartialOrdSpec> Pair<T> {
    /// True when the first member is at least the second, so a host
    /// showing the larger member knows which one to pick; ties go to the
    /// first.
    pub fn first_is_largest(&self) -> (b: bool)
        requires
            T::obeys_partial_cmp_spec(),
        ensures
            b == (self.x.partial_cmp_spec(&self.y) matches Some(
                core::cmp::Ordering::Greater
                | core::cmp::Ordering::Equal,
            )),
    {
        self.x >= self.y
    }
}

} // verus!
