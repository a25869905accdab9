//! Regular-expression matching and case folding, provided by the `regex`
//! crate and by std. What a match returns is given a name here; the
//! detectors' contracts are stated over these names.
use vstd::prelude::*;

verus! {

/// Whether `pattern` compiles as a regular expression and matches somewhere
/// in `text`.
pub uninterp spec fn pattern_matches(pattern: Seq<char>, text: Seq<char>) -> bool;

/// The leftmost-first match of `pattern` in `text`, if `pattern` compiles
/// and matches.
pub uninterp spec fn pattern_first_match(pattern: Seq<char>, text: Seq<char>) -> Option<Seq<char>>;

/// The Unicode lower-case mapping of `s`.
pub uninterp spec fn lowercase_of(s: Seq<char>) -> Seq<char>;

/// Relies on `regex::Regex::new` and `regex::Regex::is_match`: compiles
/// `pattern` and reports whether it matches anywhere in `text`. A pattern
/// that does not compile matches nothing.
#[verifier::external_body]
pub(crate) fn matches_pattern(pattern: &str, text: &str) -> (r: bool)
    ensures
        r == pattern_matches(pattern@, text@),
{
    match regex::Regex::new(pattern) {
        Ok(re) => re.is_match(text),
        Err(_) => false,
    }
}

/// Relies on `regex::Regex::new` and `regex::Regex::find`: compiles `pattern`
/// and returns the text of its leftmost-first match in `text`.
#[verifier::external_body]
pub(crate) fn first_match(pattern: &str, text: &str) -> (r: Option<String>)
    ensures
        match r {
            Some(m) => pattern_first_match(pattern@, text@) == Some(m@),
            None => pattern_first_match(pattern@, text@) is None,
        },
{
    match regex::Regex::new(pattern) {
        Ok(re) => match re.find(text) {
            Some(m) => Some(m.as_str().to_string()),
            None => None,
        },
        Err(_) => None,
    }
}

/// Relies on `str::to_lowercase`: the result depends on the characters alone.
#[verifier::external_body]
pub(crate) fn lowercase(s: &str) -> (r: String)
    ensures
        r@ == lowercase_of(s@),
{
    s.to_lowercase()
}

} // verus!
