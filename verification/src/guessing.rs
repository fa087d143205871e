//! The rules of a number-guessing game: a secret from 1 to 100, guesses read
//! as decimal numbers, and a verdict for each guess.
//!
//! Drawing the secret is the only step that leaves the library; everything
//! else — parsing a guess and judging it — is verified.

use vstd::prelude::*;
use rand::Rng;
use crate::text::chars_of;

verus! {

/// True if `c` is an ASCII decimal digit.
pub open spec fn is_digit(c: char) -> bool {
    48 <= c as u32 <= 57
}

/// The numeric value of the digit `c`.
pub open spec fn digit_value(c: char) -> int {
    c as u32 - 48
}

/// True if every character of `s` is an ASCII decimal digit.
pub open spec fn all_digits(s: Seq<char>) -> bool {
    forall|k: int| 0 <= k < s.len() ==> is_digit(s[k])
}

/// The number written by the digit string `s`, read left to right.
pub open spec fn digits_value(s: Seq<char>) -> int
    decreases s.len(),
{
    if s.len() == 0 {
        0
    } else {
        digits_value(s.drop_last()) * 10 + digit_value(s.last())
    }
}

/// `s` without a single leading plus sign: the digits of a decimal numeral.
pub open spec fn number_body(s: Seq<char>) -> Seq<char> {
    if s.len() > 0 && s[0] == '+' {
        s.subrange(1, s.len() as int)
    } else {
        s
    }
}

/// What parsing `s` as a `u32` yields: after an optional leading `+`, the
/// string must be one or more decimal digits whose value fits in a `u32`;
/// anything else is rejected.
pub open spec fn parse_u32_spec(s: Seq<char>) -> Option<u32> {
    let body = number_body(s);
    if body.len() == 0 {
        None
    } else if !all_digits(body) {
        None
    } else if digits_value(body) > u32::MAX {
        None
    } else {
        Some(digits_value(body) as u32)
    }
}

/// A digit string names a number no smaller than zero.
proof fn lemma_digits_value_nonneg(s: Seq<char>)
    requires
        all_digits(s),
    ensures
        digits_value(s) >= 0,
    decreases s.len(),
{
    if s.len() > 0 {
        assert(all_digits(s.drop_last())) by {
            assert(forall|k: int| 0 <= k < s.len() - 1 ==> s.drop_last()[k] == s[k]);
        }
        lemma_digits_value_nonneg(s.drop_last());
    }
}

/// Reading further digits never makes the number smaller: the value of a
/// prefix of a digit string is at most the value of the whole string.
proof fn lemma_digits_value_prefix(s: Seq<char>, k: int)
    requires
        all_digits(s),
        0 <= k <= s.len(),
    ensures
        digits_value(s.take(k)) <= digits_value(s),
    decreases s.len() - k,
{
    if k < s.len() {
        assert(all_digits(s.take(k + 1))) by {
            assert(forall|j: int| 0 <= j < k + 1 ==> s.take(k + 1)[j] == s[j]);
        }
        assert(s.take(k + 1).drop_last() =~= s.take(k));
        assert(all_digits(s.take(k)));
        lemma_digits_value_nonneg(s.take(k));
        assert(digits_value(s.take(k + 1)) == digits_value(s.take(k)) * 10 + digit_value(s[k]));
        lemma_digits_value_prefix(s, k + 1);
    } else {
        assert(s.take(k) =~= s);
    }
}

/// Parses `s` as a `u32` numeral: an optional leading `+` followed by one
/// or more decimal digits whose value fits.
pub fn parse_u32(s: &str) -> (r: Option<u32>)
    ensures
        r == parse_u32_spec(s@),
{
    let v = chars_of(s);
    let ghost body = number_body(s@);
    let start: usize = if v.len() > 0 && v[0] == '+' {
        1
    } else {
        0
    };
    proof {
        assert(body =~= v@.subrange(start as int, v@.len() as int));
    }
    if start == v.len() {
        return None;
    }
    let mut acc: u64 = 0;
    let mut i: usize = start;
    while i < v.len()
        invariant
            v@ == s@,
            body == number_body(s@),
            body == v@.subrange(start as int, v@.len() as int),
            start <= i <= v@.len(),
            forall|k: int| start <= k < i ==> is_digit(v@[k]),
            acc <= u32::MAX,
            acc == digits_value(body.take(i - start)),
        decreases v@.len() - i,
    {
        let c = v[i];
        let d: u32 = c as u32;
        if d < 48 || d > 57 {
            proof {
                assert(body[i - start] == v@[i as int]);
                assert(!all_digits(body));
            }
            return None;
        }
        let digit: u32 = d - 48;
        let next: u64 = acc * 10 + digit as u64;
        proof {
            assert(body.take(i - start + 1).drop_last() =~= body.take(i - start));
            assert(body.take(i - start + 1).last() == v@[i as int]);
            assert(next == digits_value(body.take(i - start + 1)));
        }
        if next > u32::MAX as u64 {
            proof {
                if all_digits(body) {
                    lemma_digits_value_prefix(body, i - start + 1);
                }
            }
            return None;
        }
        acc = next;
        i += 1;
    }
    proof {
        assert(body.take(v@.len() - start) =~= body);
        assert(all_digits(body));
    }
    Some(acc as u32)
}

/// True if `c` carries Unicode's `White_Space` property: the characters
/// that trimming removes.
pub open spec fn is_whitespace_char(c: char) -> bool {
    ||| 9 <= c as u32 <= 13
    ||| c as u32 == 32
    ||| c as u32 == 0x85
    ||| c as u32 == 0xA0
    ||| c as u32 == 0x1680
    ||| 0x2000 <= c as u32 <= 0x200A
    ||| c as u32 == 0x2028
    ||| c as u32 == 0x2029
    ||| c as u32 == 0x202F
    ||| c as u32 == 0x205F
    ||| c as u32 == 0x3000
}

/// `s` without its leading whitespace.
pub open spec fn trim_front(s: Seq<char>) -> Seq<char>
    decreases s.len(),
{
    if s.len() > 0 && is_whitespace_char(s[0]) {
        trim_front(s.subrange(1, s.len() as int))
    } else {
        s
    }
}

/// `s` without its trailing whitespace.
pub open spec fn trim_back(s: Seq<char>) -> Seq<char>
    decreases s.len(),
{
    if s.len() > 0 && is_whitespace_char(s.last()) {
        trim_back(s.drop_last())
    } else {
        s
    }
}

/// The text with leading and trailing whitespace removed, as `str::trim`
/// computes it.
pub open spec fn trim_spec(s: Seq<char>) -> Seq<char> {
    trim_back(trim_front(s))
}

/// Relies on `str::trim`: returns the subslice left when the characters
/// with Unicode's `White_Space` property are removed from both ends;
/// [`is_whitespace_char`] spells that set out.
#[verifier::external_body]
fn trim_str<'a>(s: &'a str) -> (r: &'a str)
    ensures
        r@ == trim_spec(s@),
{
    s.trim()
}

/// Reads a guess as typed at a prompt: surrounding whitespace (such as the
/// line's newline) is ignored, and the rest must be a `u32` numeral.
pub fn parse_guess(input: &str) -> (r: Option<u32>)
    ensures
        r == parse_u32_spec(trim_spec(input@)),
{
    parse_u32(trim_str(input))
}

/// The verdict on one guess.
#[derive(Clone, Copy, Debug, PartialEq, Eq, Structural)]
pub enum Outcome {
    TooLow,
    Correct,
    TooHigh,
}

/// One round of the game: a secret number between 1 and 100.
pub struct Game {
    secret: u32,
}

impl Game {
    /// The number this round asks the player to find.
    pub closed spec fn secret_value(&self) -> u32 {
        self.secret
    }

    /// Relies on rand's `thread_rng` and `Rng::gen_range`: the sample lies
    /// in the requested (non-empty) range; nothing more is known of any
    /// single draw.
    #[verifier::external_body]
    fn draw_secret() -> (r: u32)
        ensures
            1 <= r <= 100,
    {
        rand::thread_rng().gen_range(1..101)
    }

    /// Starts a round with a freshly drawn secret.
    pub fn new() -> (g: Game)
        ensures
            1 <= g.secret_value() <= 100,
    {
        Game { secret: Self::draw_secret() }
    }

    /// Starts a round whose secret is chosen by the caller.
    pub fn with_secret(secret: u32) -> (g: Game)
        requires
            1 <= secret <= 100,
        ensures
            g.secret_value() == secret,
    {
        Game { secret }
    }

    /// Judges a guess against the secret.
    pub fn check(&self, guess: u32) -> (o: Outcome)
        ensures
            o == (if guess < self.secret_value() {
                Outcome::TooLow
            } else if guess == self.secret_value() {
                Outcome::Correct
            } else {
                Outcome::TooHigh
            }),
    {
        if guess < self.secret {
            Outcome::TooLow
        } else if guess == self.secret {
            Outcome::Correct
        } else {
            Outcome::TooHigh
        }
    }
}

} // verus!
