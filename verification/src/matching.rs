//! Pattern matching primitives.
//!
//! All pattern matching is delegated to the `regex` crate. The three spec
//! names below stand for what that crate computes: whether a pattern string
//! compiles, whether a compiled pattern matches anywhere in a text, and the
//! sequence of non-overlapping matches found in a text. Each is a function of
//! its arguments alone. The wrappers are total: a pattern that fails to
//! compile matches nothing and yields no matches, so malformed patterns are
//! harmless everywhere they are used.

use vstd::prelude::*;

verus! {

/// Whether `regex::Regex::new` accepts the pattern.
pub uninterp spec fn regex_compiles(pattern: Seq<char>) -> bool;

/// Whether the compiled pattern matches anywhere in the text, as
/// `regex::Regex::is_match` decides it. Meaningful only when
/// `regex_compiles(pattern)` holds.
pub uninterp spec fn regex_matches(pattern: Seq<char>, text: Seq<char>) -> bool;

/// The non-overlapping matches of the compiled pattern in the text, in text
/// order, each reported as its first capture group when the pattern declares
/// one and it participated in the match, else as the whole match. Meaningful
/// only when `regex_compiles(pattern)` holds.
pub uninterp spec fn regex_found(pattern: Seq<char>, text: Seq<char>) -> Seq<Seq<char>>;

/// Relies on `regex::Regex::new`: it returns `Ok` exactly when the pattern
/// string is a valid pattern.
#[verifier::external_body]
pub(crate) fn pattern_compiles(pattern: &str) -> (r: bool)
    ensures
        r == regex_compiles(pattern@),
{
    regex::Regex::new(pattern).is_ok()
}

/// Relies on `regex::Regex::new` and `regex::Regex::is_match`: whether the
/// pattern, once compiled, matches anywhere in the text. A pattern that does
/// not compile matches nothing.
#[verifier::external_body]
pub(crate) fn pattern_is_match(pattern: &str, text: &str) -> (r: bool)
    ensures
        r == (regex_compiles(pattern@) && regex_matches(pattern@, text@)),
{
    match regex::Regex::new(pattern) {
        Ok(re) => re.is_match(text),
        Err(_) => false,
    }
}

/// Relies on `regex::Regex::new` and `regex::Regex::captures_iter`: the
/// non-overlapping matches of the pattern in the text, in text order, each
/// narrowed to its first capture group when one participated in the match.
/// A pattern that does not compile yields no matches.
#[verifier::external_body]
pub(crate) fn pattern_find_all(pattern: &str, text: &str) -> (r: Vec<String>)
    ensures
        regex_compiles(pattern@) ==> r.deep_view() == regex_found(pattern@, text@),
        !regex_compiles(pattern@) ==> r.deep_view() == Seq::<Seq<char>>::empty(),
{
    match regex::Regex::new(pattern) {
        Ok(re) => re
            .captures_iter(text)
            .map(|c| c.get(1).unwrap_or_else(|| c.get(0).unwrap()).as_str().to_string())
            .collect(),
        Err(_) => Vec::new(),
    }
}

} // verus!
