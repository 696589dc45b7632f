//! Regular expressions, provided by the `regex` crate.
//!
//! What a pattern matches and what a substitution produces is not modelled
//! here. Each is given a name, and the wrappers below promise that the crate's
//! answer is the named one.

use vstd::prelude::*;

verus! {

/// Whether `regex::Regex::new` accepts `pattern`.
pub uninterp spec fn pattern_compiles(pattern: Seq<char>) -> bool;

/// Whether the regular expression `pattern` matches somewhere in `text`, as
/// `regex::Regex::is_match` decides it.
pub uninterp spec fn pattern_matches(pattern: Seq<char>, text: Seq<char>) -> bool;

/// `text` with every match of `pattern` replaced by the expansion of
/// `template`, as `regex::Regex::replace_all` produces it.
pub uninterp spec fn pattern_replaced(
    pattern: Seq<char>,
    text: Seq<char>,
    template: Seq<char>,
) -> Seq<char>;

/// Calls `regex::Regex::new` and tells whether it succeeded.
///
/// Trusted: whether the crate accepts a pattern depends on the pattern alone.
/// The call does not panic.
#[verifier::external_body]
pub(crate) fn compiles(pattern: &str) -> (ok: bool)
    ensures
        ok == pattern_compiles(pattern@),
{
    regex::Regex::new(pattern).is_ok()
}

/// Calls `regex::Regex::new` and, on success, `regex::Regex::is_match`.
///
/// Trusted: the result is `None` exactly when the crate rejects the pattern,
/// and otherwise carries the crate's answer, which depends on the pattern and
/// the text alone. Neither call panics.
#[verifier::external_body]
pub(crate) fn is_match(pattern: &str, text: &str) -> (r: Option<bool>)
    ensures
        r.is_some() == pattern_compiles(pattern@),
        r matches Some(hit) ==> hit == pattern_matches(pattern@, text@),
{
    match regex::Regex::new(pattern) {
        Ok(re) => Some(re.is_match(text)),
        Err(_) => None,
    }
}

/// Calls `regex::Regex::new` and, on success, `regex::Regex::replace_all`.
///
/// Trusted: the result is `None` exactly when the crate rejects the pattern,
/// and otherwise is the crate's output as an owned string, which depends on
/// the pattern, the text and the template alone. Neither call panics.
#[verifier::external_body]
pub(crate) fn replace_all(pattern: &str, text: &str, template: &str) -> (r: Option<String>)
    ensures
        r.is_some() == pattern_compiles(pattern@),
        r matches Some(s) ==> s@ == pattern_replaced(pattern@, text@, template@),
{
    match regex::Regex::new(pattern) {
        Ok(re) => Some(re.replace_all(text, template).into_owned()),
        Err(_) => None,
    }
}

} // verus!
