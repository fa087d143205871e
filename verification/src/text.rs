//! Character-level text utilities: substring matching and splitting a text
//! into lines, with executable functions proved against sequence-level
//! specifications.

use vstd::prelude::*;
use vstd::string::StrSliceExecFns;

verus! {

/// True if `pat` occurs in `text` beginning exactly at index `i`.
pub open spec fn matches_at(text: Seq<char>, pat: Seq<char>, i: int) -> bool {
    &&& 0 <= i
    &&& i + pat.len() <= text.len()
    &&& text.subrange(i, i + pat.len()) == pat
}

/// True if `pat` occurs somewhere in `text`.  The empty pattern occurs in
/// every text.
pub open spec fn has_substring(text: Seq<char>, pat: Seq<char>) -> bool {
    exists|i: int| matches_at(text, pat, i)
}

/// The characters of `s`, in order.
pub fn chars_of(s: &str) -> (v: Vec<char>)
    ensures
        v@ == s@,
{
    let n = s.unicode_len();
    let mut v: Vec<char> = Vec::new();
    let mut i: usize = 0;
    while i < n
        invariant
            n == s@.len(),
            0 <= i <= n,
            v@ == s@.subrange(0, i as int),
        decreases n - i,
    {
        let c = s.get_char(i);
        v.push(c);
        proof {
            assert(v@ =~= s@.subrange(0, i + 1));
        }
        i += 1;
    }
    proof {
        assert(v@ =~= s@);
    }
    v
}

/// True if `pat` occurs in `text` beginning at index `i`.
fn matches_here(text: &Vec<char>, pat: &Vec<char>, i: usize) -> (b: bool)
    requires
        i + pat@.len() <= text@.len() <= usize::MAX,
    ensures
        b == matches_at(text@, pat@, i as int),
{
    let mut j: usize = 0;
    while j < pat.len()
        invariant
            i + pat@.len() <= text@.len() <= usize::MAX,
            0 <= j <= pat@.len(),
            forall|k: int| 0 <= k < j ==> text@[i + k] == pat@[k],
        decreases pat@.len() - j,
    {
        if text[i + j] != pat[j] {
            proof {
                let sub = text@.subrange(i as int, i + pat@.len());
                assert(sub[j as int] == text@[i + j]);
            }
            return false;
        }
        j += 1;
    }
    proof {
        assert(text@.subrange(i as int, i + pat@.len()) =~= pat@);
    }
    true
}

/// True if `pat` occurs anywhere in `text`.
pub fn contains_chars(text: &Vec<char>, pat: &Vec<char>) -> (b: bool)
    ensures
        b == has_substring(text@, pat@),
{
    if pat.len() > text.len() {
        return false;
    }
    if pat.len() == 0 {
        proof {
            assert(text@.subrange(0, 0) =~= pat@);
            assert(matches_at(text@, pat@, 0));
        }
        return true;
    }
    let end = text.len() - pat.len();
    let mut i: usize = 0;
    while i <= end
        invariant
            1 <= pat@.len() <= text@.len() <= usize::MAX,
            end == text@.len() - pat@.len(),
            0 <= i <= end + 1,
            forall|k: int| 0 <= k < i ==> !matches_at(text@, pat@, k),
        decreases end + 1 - i,
    {
        if matches_here(text, pat, i) {
            return true;
        }
        i += 1;
    }
    false
}

/// The index of the first newline in `s` at or after `from`, or `s.len()`
/// if there is none.
pub open spec fn find_newline(s: Seq<char>, from: int) -> int
    decreases s.len() - from,
{
    if from >= s.len() {
        s.len() as int
    } else if s[from] == '\n' {
        from
    } else {
        find_newline(s, from + 1)
    }
}

/// `find_newline` returns the position of the first newline at or after
/// `from`: nothing before it is a newline, and it points at one unless the
/// text holds none at all.
pub proof fn lemma_find_newline(s: Seq<char>, from: int)
    requires
        0 <= from <= s.len(),
    ensures
        from <= find_newline(s, from) <= s.len(),
        find_newline(s, from) < s.len() ==> s[find_newline(s, from)] == '\n',
        forall|k: int| from <= k < find_newline(s, from) ==> s[k] != '\n',
    decreases s.len() - from,
{
    if from < s.len() && s[from] != '\n' {
        lemma_find_newline(s, from + 1);
    }
}

/// Scanning a suffix finds the same newline: the first newline of
/// `s.subrange(pos, s.len())` sits `pos` places before the first newline of
/// `s` at or after `pos`.
proof fn lemma_find_newline_suffix(s: Seq<char>, pos: int, k: int)
    requires
        0 <= pos <= s.len(),
        0 <= k <= s.len() - pos,
    ensures
        find_newline(s.subrange(pos, s.len() as int), k) == find_newline(s, pos + k) - pos,
    decreases s.len() - pos - k,
{
    let t = s.subrange(pos, s.len() as int);
    if k < t.len() && t[k] != '\n' {
        lemma_find_newline_suffix(s, pos, k + 1);
    }
}

/// `line` with a single trailing carriage return removed, as the end of a
/// line terminated by `"\r\n"` is not part of its content.
pub open spec fn strip_carriage_return(line: Seq<char>) -> Seq<char> {
    if line.len() > 0 && line.last() == '\r' {
        line.drop_last()
    } else {
        line
    }
}

/// The lines of `s`: maximal stretches between newlines, a carriage return
/// directly before a newline stripped, and no empty final line for a text
/// that ends with a newline.
pub open spec fn lines_of(s: Seq<char>) -> Seq<Seq<char>>
    decreases s.len(),
{
    if s.len() == 0 {
        Seq::empty()
    } else {
        let j = find_newline(s, 0);
        if 0 <= j < s.len() {
            seq![strip_carriage_return(s.subrange(0, j))] + lines_of(
                s.subrange(j + 1, s.len() as int),
            )
        } else {
            seq![s]
        }
    }
}

/// The lines of `s`, each as its own string.
pub fn split_lines(s: &str) -> (lines: Vec<String>)
    ensures
        lines.deep_view() == lines_of(s@),
{
    let n = s.unicode_len();
    let mut lines: Vec<String> = Vec::new();
    let mut pos: usize = 0;
    proof {
        assert(s@.subrange(0, n as int) =~= s@);
        assert(lines.deep_view() =~= Seq::<Seq<char>>::empty());
        assert(Seq::<Seq<char>>::empty() + lines_of(s@) =~= lines_of(s@));
    }
    while pos < n
        invariant
            n == s@.len(),
            0 <= pos <= n,
            lines.deep_view() + lines_of(s@.subrange(pos as int, n as int)) == lines_of(s@),
        decreases n - pos,
    {
        let ghost prev = lines.deep_view();
        let ghost rest = s@.subrange(pos as int, n as int);

        // Find the first newline at or after `pos`.
        let mut j: usize = pos;
        while j < n
            invariant
                n == s@.len(),
                pos <= j <= n,
                forall|k: int| pos <= k < j ==> s@[k] != '\n',
            ensures
                pos <= j <= n,
                forall|k: int| pos <= k < j ==> s@[k] != '\n',
                j == n || s@[j as int] == '\n',
            decreases n - j,
        {
            if s.get_char(j) == '\n' {
                break;
            }
            j += 1;
        }
        proof {
            lemma_find_newline(s@, pos as int);
            // `j` is the first newline at or after `pos`, so it coincides
            // with the specification-level scan.
            assert(find_newline(s@, pos as int) == j as int) by {
                let f = find_newline(s@, pos as int);
                if f < j {
                    assert(s@[f] != '\n');
                } else if j < f {
                    assert(s@[j as int] != '\n');
                }
            }
            lemma_find_newline_suffix(s@, pos as int, 0);
        }

        if j < n {
            let end = if j > pos && s.get_char(j - 1) == '\r' {
                j - 1
            } else {
                j
            };
            let line = s.substring_char(pos, end).to_owned();
            lines.push(line);
            proof {
                assert(rest.subrange(0, j - pos) =~= s@.subrange(pos as int, j as int));
                assert(strip_carriage_return(rest.subrange(0, j - pos)) =~= s@.subrange(
                    pos as int,
                    end as int,
                ));
                assert(rest.subrange(j - pos + 1, rest.len() as int) =~= s@.subrange(
                    j + 1,
                    n as int,
                ));
                assert(lines.deep_view() =~= prev + seq![s@.subrange(pos as int, end as int)]);
                assert(lines_of(rest) == seq![strip_carriage_return(rest.subrange(0, j - pos))]
                    + lines_of(rest.subrange(j - pos + 1, rest.len() as int)));
                assert(lines.deep_view() + lines_of(s@.subrange(j + 1, n as int)) =~= lines_of(
                    s@,
                ));
            }
            pos = j + 1;
        } else {
            let line = s.substring_char(pos, n).to_owned();
            lines.push(line);
            proof {
                assert(lines_of(rest) == seq![rest]);
                assert(lines.deep_view() =~= prev + seq![rest]);
                assert(s@.subrange(n as int, n as int) =~= Seq::<char>::empty());
                assert(lines.deep_view() + lines_of(s@.subrange(n as int, n as int)) =~= lines_of(
                    s@,
                ));
            }
            pos = n;
        }
    }
    proof {
        assert(s@.subrange(n as int, n as int) =~= Seq::<char>::empty());
        assert(lines.deep_view() + lines_of(Seq::<char>::empty()) =~= lines.deep_view());
        assert(lines.deep_view() =~= lines_of(s@));
    }
    lines
}

} // verus!
