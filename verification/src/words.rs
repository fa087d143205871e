//! Words and string lengths: the first word of a text, the longer of two
//! texts, and a couple of small string helpers.

use vstd::prelude::*;
use vstd::string::StrSliceExecFns;
use vstd::string::StringExecFns;
use vstd::string::StringSliceAdditionalSpecFns;
use crate::text::chars_of;
use crate::text::lines_of;
use crate::text::split_lines;

verus! {

/// The index of the first space in `s` at or after `from`, or `s.len()` if
/// there is none.
pub open spec fn find_space(s: Seq<char>, from: int) -> int
    decreases s.len() - from,
{
    if from >= s.len() {
        s.len() as int
    } else if s[from] == ' ' {
        from
    } else {
        find_space(s, from + 1)
    }
}

/// `find_space` returns the position of the first space at or after `from`:
/// nothing before it is a space, and it points at one unless the text holds
/// none at all.
pub proof fn lemma_find_space(s: Seq<char>, from: int)
    requires
        0 <= from <= s.len(),
    ensures
        from <= find_space(s, from) <= s.len(),
        find_space(s, from) < s.len() ==> s[find_space(s, from)] == ' ',
        forall|k: int| from <= k < find_space(s, from) ==> s[k] != ' ',
    decreases s.len() - from,
{
    if from < s.len() && s[from] != ' ' {
        lemma_find_space(s, from + 1);
    }
}

/// The index of the first space byte in `bytes` at or after `from`, or
/// `bytes.len()` if there is none.
pub open spec fn find_space_byte(bytes: Seq<u8>, from: int) -> int
    decreases bytes.len() - from,
{
    if from >= bytes.len() {
        bytes.len() as int
    } else if bytes[from] == 32 {
        from
    } else {
        find_space_byte(bytes, from + 1)
    }
}

/// `find_space_byte` returns the position of the first space byte at or
/// after `from`: nothing before it is a space, and it points at one unless
/// the bytes hold none at all.
pub proof fn lemma_find_space_byte(bytes: Seq<u8>, from: int)
    requires
        0 <= from <= bytes.len(),
    ensures
        from <= find_space_byte(bytes, from) <= bytes.len(),
        find_space_byte(bytes, from) < bytes.len() ==> bytes[find_space_byte(bytes, from)] == 32,
        forall|k: int| from <= k < find_space_byte(bytes, from) ==> bytes[k] != 32,
    decreases bytes.len() - from,
{
    if from < bytes.len() && bytes[from] != 32 {
        lemma_find_space_byte(bytes, from + 1);
    }
}

/// The position of the first space of `s`, or its length if it has none.
fn find_space_index(s: &str) -> (i: usize)
    ensures
        i == find_space(s@, 0),
{
    let n = s.unicode_len();
    let mut i: usize = 0;
    while i < n
        invariant
            n == s@.len(),
            0 <= i <= n,
            forall|k: int| 0 <= k < i ==> s@[k] != ' ',
        ensures
            0 <= i <= n,
            forall|k: int| 0 <= k < i ==> s@[k] != ' ',
            i == n || s@[i as int] == ' ',
        decreases n - i,
    {
        if s.get_char(i) == ' ' {
            break;
        }
        i += 1;
    }
    proof {
        lemma_find_space(s@, 0);
        let f = find_space(s@, 0);
        if f < i {
            assert(s@[f] != ' ');
        } else if i < f {
            assert(s@[i as int] != ' ');
        }
    }
    i
}

/// The byte index of the first space of `s`, or its length in bytes when
/// it has no space: where the first word of `s` ends in its stored form.
pub fn first_word(s: &String) -> (r: usize)
    ensures
        r == find_space_byte(vstd::utf8::encode_utf8(s@), 0),
{
    let bytes = s.as_str().as_bytes();
    let n = bytes.len();
    let mut i: usize = 0;
    while i < n
        invariant
            n == bytes@.len(),
            0 <= i <= n,
            forall|k: int| 0 <= k < i ==> bytes@[k] != 32,
        ensures
            0 <= i <= n,
            forall|k: int| 0 <= k < i ==> bytes@[k] != 32,
            i == n || bytes@[i as int] == 32,
        decreases n - i,
    {
        if bytes[i] == 32u8 {
            break;
        }
        i += 1;
    }
    proof {
        lemma_find_space_byte(bytes@, 0);
        let f = find_space_byte(bytes@, 0);
        if f < i {
            assert(bytes@[f] != 32);
        } else if i < f {
            assert(bytes@[i as int] != 32);
        }
    }
    i
}

/// The first word of `s`: everything before its first space, or the whole
/// text when it has no space.
pub fn first_word_slice<'a>(s: &'a str) -> (r: &'a str)
    ensures
        r@ == s@.subrange(0, find_space(s@, 0)),
{
    let i = find_space_index(s);
    proof {
        lemma_find_space(s@, 0);
    }
    s.substring_char(0, i)
}

/// The longer of two texts, measured in bytes as they are stored; ties go
/// to the second.
pub fn longest<'a>(x: &'a str, y: &'a str) -> (r: &'a str)
    ensures
        r@ == (if x.spec_bytes().len() > y.spec_bytes().len() {
            x@
        } else {
            y@
        }),
{
    if x.as_bytes().len() > y.as_bytes().len() {
        x
    } else {
        y
    }
}

/// The length of `s` in bytes as it is stored.
pub fn calculate_length(s: &String) -> (r: usize)
    ensures
        r == vstd::utf8::encode_utf8(s@).len(),
{
    s.as_str().as_bytes().len()
}

/// The last character of the first line of `s`: nothing when the text is
/// empty or its first line is.
pub open spec fn first_line_last_char(s: Seq<char>) -> Option<char> {
    if lines_of(s).len() == 0 {
        None
    } else if lines_of(s)[0].len() == 0 {
        None
    } else {
        Some(lines_of(s)[0].last())
    }
}

/// The last character of the first line of `text`, when there is one.
pub fn last_char_of_first_line(text: &str) -> (r: Option<char>)
    ensures
        r == first_line_last_char(text@),
{
    let lines = split_lines(text);
    if lines.len() == 0 {
        return None;
    }
    let first = chars_of(lines[0].as_str());
    if first.len() == 0 {
        return None;
    }
    Some(first[first.len() - 1])
}

/// Greets the world: appends `", world"` to the string.
pub fn change_mut(some_string: &mut String)
    ensures
        final(some_string)@ == old(some_string)@ + ", world"@,
{
    some_string.append(", world");
}

} // verus!
