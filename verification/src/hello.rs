//! A friendly banner and a tiny signed-number type.
//!
//! The banner text is fixed here; rendering it inside a speech bubble is
//! done by the `ferris-says` crate, reached through one trusted wrapper.

use vstd::prelude::*;
use vstd::string::StrSliceExecFns;
use vstd::string::StringExecFns;

verus! {

/// The bytes `ferris_says::say` writes for `text` wrapped at `width`
/// columns: a speech bubble around the text, with the speaker below.
pub uninterp spec fn speech_bubble(text: Seq<char>, width: nat) -> Seq<u8>;

/// Relies on `ferris_says::say`: it writes the bubble for the given text
/// and wrap width to the writer — here a byte vector, which cannot fail —
/// and its output is a function of those two arguments alone.  The bounds
/// keep the wrapping step's line-penalty arithmetic, which squares gaps in
/// 32-bit integers, well clear of overflow.
#[verifier::external_body]
fn render_bubble(text: &str, width: usize) -> (r: Vec<u8>)
    requires
        text@.len() <= 4096,
        width <= 4096,
    ensures
        r@ == speech_bubble(text@, width as nat),
{
    let mut out: Vec<u8> = Vec::new();
    let _ = ferris_says::say(text.as_bytes(), width, &mut out);
    out
}

/// The fixed greeting this library has to offer.
pub fn greeting() -> (r: String)
    ensures
        r@ == "Hello fellow rustaceans!"@,
{
    String::from_str("Hello fellow rustaceans!")
}

/// The greeting rendered as a speech bubble, wrapped at its own width so it
/// stays on one line.
pub fn greeting_banner() -> (r: Vec<u8>)
    ensures
        r@ == speech_bubble("Hello fellow rustaceans!"@, "Hello fellow rustaceans!"@.len()),
{
    let message = greeting();
    proof {
        reveal_strlit("Hello fellow rustaceans!");
        assert(message@.len() == 24);
    }
    let width = message.as_str().unicode_len();
    render_bubble(message.as_str(), width)
}

/// An integer that remembers whether it was written down as odd.
#[derive(Clone, Copy, Debug)]
pub struct Number {
    pub odd: bool,
    pub value: i32,
}

impl Number {
    /// True exactly when the value is greater than zero.
    pub fn is_strictly_positive(self) -> (r: bool)
        ensures
            r == (self.value > 0),
    {
        self.value > 0
    }

    /// The same number with its sign flipped; oddness is kept as written.
    pub fn neg(self) -> (r: Number)
        requires
            self.value != i32::MIN,
        ensures
            r.value == -self.value,
            r.odd == self.odd,
    {
        Number { value: -self.value, odd: self.odd }
    }
}

/// Types with a sign: the one query asks whether a value lies strictly
/// below zero.
pub trait Signed: Sized {
    /// Whether this value counts as strictly negative.
    spec fn is_negative_spec(self) -> bool;

    /// True exactly when this value is strictly negative.
    fn is_strictly_negative(self) -> (r: bool)
        ensures
            r == self.is_negative_spec(),
    ;
}

impl Signed for Number {
    open spec fn is_negative_spec(self) -> bool {
        self.value < 0
    }

    fn is_strictly_negative(self) -> (r: bool) {
        self.value < 0
    }
}

impl Signed for i32 {
    open spec fn is_negative_spec(self) -> bool {
        self < 0
    }

    fn is_strictly_negative(self) -> (r: bool) {
        self < 0
    }
}

/// Flips the sign of the value, leaving the oddness flag as written.
pub fn invert(n: &mut Number)
    requires
        old(n).value != i32::MIN,
    ensures
        final(n).value == -old(n).value,
        final(n).odd == old(n).odd,
{
    n.value = -n.value;
}

} // verus!
