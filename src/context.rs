//! Line-oriented scans shared by the detectors: the first line matching a
//! pattern, the function declaration enclosing a line, and the forward scan
//! of a function body for an access-control idiom.
use vstd::prelude::*;
use crate::pattern::{pattern_matches, pattern_first_match, matches_pattern, first_match};
use crate::text::{contains, str_contains, string_views};

verus! {

/// A function declaration with a visibility keyword and an opening brace on
/// the same line.
pub const FUNCTION_DECLARATION: &'static str = r"function\s+([a-zA-Z0-9_]+)\s*\((.*?)\)\s*(public|external|internal|private)\s*(.*?)\s*\{";

/// Ownership and role-check idioms.
pub const ACCESS_CONTROL: &'static str = r"\b(onlyOwner|onlyRole|require\(msg\.sender\s*==\s*[a-zA-Z0-9_]+\)|_checkRole)\b";

/// The character taken as the end of a function body.
pub const CLOSING_BRACE: &'static str = "}";

/// The 1-based number of the first line at index `k` or later that matches
/// `pattern`, or 0 when there is none.
pub open spec fn first_match_from(pattern: Seq<char>, lines: Seq<Seq<char>>, k: int) -> nat
    decreases lines.len() - k,
{
    if k < 0 || k >= lines.len() {
        0
    } else if pattern_matches(pattern, lines[k]) {
        (k + 1) as nat
    } else {
        first_match_from(pattern, lines, k + 1)
    }
}

/// The 1-based number of the first line that matches `pattern`, or 0.
pub open spec fn first_matching_line(pattern: Seq<char>, lines: Seq<Seq<char>>) -> nat {
    first_match_from(pattern, lines, 0)
}

/// The first matching line is a line of `lines`, or 0.
pub proof fn lemma_first_match_bound(pattern: Seq<char>, lines: Seq<Seq<char>>, k: int)
    ensures
        first_match_from(pattern, lines, k) <= lines.len(),
    decreases lines.len() - k,
{
    if 0 <= k < lines.len() && !pattern_matches(pattern, lines[k]) {
        lemma_first_match_bound(pattern, lines, k + 1);
    }
}

/// The 1-based number of the first of `lines` that matches `pattern`, or 0.
pub fn find_first_matching_line(pattern: &str, lines: &Vec<String>) -> (r: usize)
    ensures
        r == first_matching_line(pattern@, string_views(lines@)),
        r <= lines@.len(),
{
    let ghost ls = string_views(lines@);
    proof {
        lemma_first_match_bound(pattern@, ls, 0);
    }
    let mut i: usize = 0;
    while i < lines.len()
        invariant
            ls == string_views(lines@),
            i <= lines@.len(),
            first_match_from(pattern@, ls, 0) == first_match_from(pattern@, ls, i as int),
        decreases lines@.len() - i,
    {
        if matches_pattern(pattern, lines[i].as_str()) {
            return i + 1;
        }
        i = i + 1;
    }
    0
}

// ---------------------------------------------------------------------------
// Enclosing function
// ---------------------------------------------------------------------------

/// The function declaration found for a line: its 1-based line number (0
/// when none precedes the line) and the matched declaration text (empty
/// when none).
pub struct FunctionContext {
    pub start_line: usize,
    pub signature: String,
}

/// Scanning backward from index `j`: the first line that holds a function
/// declaration, as (1-based line number, declaration text), or (0, empty).
pub open spec fn enclosing_function(lines: Seq<Seq<char>>, j: int) -> (nat, Seq<char>)
    decreases j + 1,
{
    if j < 0 || j >= lines.len() {
        (0, Seq::empty())
    } else {
        match pattern_first_match(FUNCTION_DECLARATION@, lines[j]) {
            Some(sig) => ((j + 1) as nat, sig),
            None => enclosing_function(lines, j - 1),
        }
    }
}

/// The enclosing declaration is at or above the line scanned from.
pub proof fn lemma_enclosing_bound(lines: Seq<Seq<char>>, j: int)
    ensures
        j < 0 ==> enclosing_function(lines, j).0 == 0,
        0 <= j ==> enclosing_function(lines, j).0 <= j + 1,
        enclosing_function(lines, j).0 <= lines.len(),
    decreases j + 1,
{
    if 0 <= j < lines.len() {
        if pattern_first_match(FUNCTION_DECLARATION@, lines[j]) is None {
            lemma_enclosing_bound(lines, j - 1);
        }
    }
}

/// Finds the nearest function declaration at or above line index `index`.
pub fn resolve_function_context(lines: &Vec<String>, index: usize) -> (r: FunctionContext)
    requires
        index < lines@.len(),
    ensures
        (r.start_line as nat, r.signature@) == enclosing_function(
            string_views(lines@),
            index as int,
        ),
        r.start_line <= index + 1,
{
    let ghost ls = string_views(lines@);
    proof {
        lemma_enclosing_bound(ls, index as int);
    }
    let n = lines.len();
    let mut j: usize = index;
    loop
        invariant
            ls == string_views(lines@),
            n == lines@.len(),
            j <= index < lines@.len(),
            enclosing_function(ls, index as int) == enclosing_function(ls, j as int),
        decreases j,
    {
        assert(ls[j as int] == lines@[j as int]@);
        match first_match(FUNCTION_DECLARATION, lines[j].as_str()) {
            Some(sig) => {
                return FunctionContext { start_line: j + 1, signature: sig };
            },
            None => {},
        }
        if j == 0 {
            assert(enclosing_function(ls, -1) == (0nat, Seq::<char>::empty()));
            return FunctionContext { start_line: 0, signature: String::new() };
        }
        j = j - 1;
    }
}

// ---------------------------------------------------------------------------
// Forward scan of a function body
// ---------------------------------------------------------------------------

/// Scanning forward from index `k` up to and including the first line that
/// holds a closing brace: some line matches the access-control idioms.
pub open spec fn guarded_from(lines: Seq<Seq<char>>, k: int) -> bool
    decreases lines.len() - k,
{
    if k < 0 || k >= lines.len() {
        false
    } else if pattern_matches(ACCESS_CONTROL@, lines[k]) {
        true
    } else if contains(lines[k], CLOSING_BRACE@) {
        false
    } else {
        guarded_from(lines, k + 1)
    }
}

/// Whether the body that starts at line index `index` shows an
/// access-control idiom before it ends (see `guarded_from`).
pub fn body_has_access_control(lines: &Vec<String>, index: usize) -> (r: bool)
    ensures
        r == guarded_from(string_views(lines@), index as int),
{
    let ghost ls = string_views(lines@);
    let mut k: usize = index;
    while k < lines.len()
        invariant
            ls == string_views(lines@),
            index <= k,
            guarded_from(ls, index as int) == guarded_from(ls, k as int),
        decreases lines@.len() - k,
    {
        if matches_pattern(ACCESS_CONTROL, lines[k].as_str()) {
            return true;
        }
        if str_contains(lines[k].as_str(), CLOSING_BRACE) {
            return false;
        }
        k = k + 1;
    }
    false
}

} // verus!
