//! Line-oriented text search: the rules of a small grep-like tool.
//!
//! [`search`] returns the lines of a text that contain a query, and
//! [`search_case_insensitive`] does the same after case-folding both sides.

use vstd::prelude::*;
use crate::text::chars_of;
use crate::text::contains_chars;
use crate::text::has_substring;
use crate::text::lines_of;
use crate::text::split_lines;

verus! {

/// What a run of the search tool needs to know: the file to search, the
/// query to look for, and whether case matters.
pub struct Config {
    pub filename: String,
    pub query: String,
    pub case_sensitive: bool,
}

impl Config {
    /// Builds a [`Config`] from a command line: the argument list (whose
    /// first entry is the program name) and whether the environment asked
    /// for case-insensitive search.  Fails exactly when query or filename
    /// is missing.
    pub fn new(args: Vec<String>, case_insensitive_env: bool) -> (r: Result<Config, &'static str>)
        ensures
            r is Err <==> args@.len() < 3,
            r matches Err(e) ==> e@ == "not enough arguments!"@,
            r matches Ok(c) ==> {
                &&& c.query@ == args@[1]@
                &&& c.filename@ == args@[2]@
                &&& c.case_sensitive == !case_insensitive_env
            },
    {
        if args.len() < 3 {
            return Err("not enough arguments!");
        }
        let query = args[1].clone();
        let filename = args[2].clone();
        Ok(Config { filename, query, case_sensitive: !case_insensitive_env })
    }
}

/// The lines among `ls` that contain `q`, in order.
pub open spec fn matching_lines(ls: Seq<Seq<char>>, q: Seq<char>) -> Seq<Seq<char>>
    decreases ls.len(),
{
    if ls.len() == 0 {
        Seq::empty()
    } else {
        let rest = matching_lines(ls.drop_last(), q);
        if has_substring(ls.last(), q) {
            rest.push(ls.last())
        } else {
            rest
        }
    }
}

/// The lines among `ls` whose case-folded form contains `q` (itself already
/// case-folded), in order.  The lines are returned as written, not folded.
pub open spec fn matching_lines_folded(ls: Seq<Seq<char>>, q: Seq<char>) -> Seq<Seq<char>>
    decreases ls.len(),
{
    if ls.len() == 0 {
        Seq::empty()
    } else {
        let rest = matching_lines_folded(ls.drop_last(), q);
        if has_substring(lower_of(ls.last()), q) {
            rest.push(ls.last())
        } else {
            rest
        }
    }
}

/// The lowercase form of a text, as `str::to_lowercase` computes it.
pub uninterp spec fn lower_of(s: Seq<char>) -> Seq<char>;

/// Relies on `str::to_lowercase`: the result is a function of the
/// characters alone.
#[verifier::external_body]
fn lowercase(s: &str) -> (r: String)
    ensures
        r@ == lower_of(s@),
{
    s.to_lowercase()
}

/// The lines of `contents` that contain `query`, in order.
pub fn search(query: &str, contents: &str) -> (r: Vec<String>)
    ensures
        r.deep_view() == matching_lines(lines_of(contents@), query@),
{
    let q = chars_of(query);
    let lines = split_lines(contents);
    let mut r: Vec<String> = Vec::new();
    let mut i: usize = 0;
    while i < lines.len()
        invariant
            q@ == query@,
            lines.deep_view() == lines_of(contents@),
            0 <= i <= lines@.len(),
            lines@.len() == lines.deep_view().len(),
            r.deep_view() == matching_lines(lines.deep_view().take(i as int), query@),
        decreases lines@.len() - i,
    {
        let ghost taken = lines.deep_view().take(i as int);
        let line_chars = chars_of(lines[i].as_str());
        if contains_chars(&line_chars, &q) {
            r.push(lines[i].clone());
        }
        i += 1;
        proof {
            let now = lines.deep_view().take(i as int);
            assert(now.drop_last() =~= taken);
            assert(now.last() == lines.deep_view()[i - 1]);
        }
    }
    proof {
        assert(lines.deep_view().take(lines.deep_view().len() as int) =~= lines.deep_view());
    }
    r
}

/// The lines of `contents` that contain `query` regardless of letter case,
/// in order: a line is kept when its lowercase form contains the lowercase
/// form of the query.
pub fn search_case_insensitive(query: &str, contents: &str) -> (r: Vec<String>)
    ensures
        r.deep_view() == matching_lines_folded(lines_of(contents@), lower_of(query@)),
{
    let query_folded = lowercase(query);
    let q = chars_of(query_folded.as_str());
    let lines = split_lines(contents);
    let mut r: Vec<String> = Vec::new();
    let mut i: usize = 0;
    while i < lines.len()
        invariant
            q@ == lower_of(query@),
            lines.deep_view() == lines_of(contents@),
            0 <= i <= lines@.len(),
            lines@.len() == lines.deep_view().len(),
            r.deep_view() == matching_lines_folded(lines.deep_view().take(i as int), lower_of(query@)),
        decreases lines@.len() - i,
    {
        let ghost taken = lines.deep_view().take(i as int);
        let line_folded = lowercase(lines[i].as_str());
        let line_chars = chars_of(line_folded.as_str());
        if contains_chars(&line_chars, &q) {
            r.push(lines[i].clone());
        }
        i += 1;
        proof {
            let now = lines.deep_view().take(i as int);
            assert(now.drop_last() =~= taken);
            assert(now.last() == lines.deep_view()[i - 1]);
        }
    }
    proof {
        assert(lines.deep_view().take(lines.deep_view().len() as int) =~= lines.deep_view());
    }
    r
}

} // verus!
