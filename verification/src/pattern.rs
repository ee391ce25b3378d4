//! Regular-expression matching through the `regex` crate.
use vstd::prelude::*;

verus! {

/// Whether `regex::Regex::new` accepts a pattern.
pub uninterp spec fn regex_compiles(pattern: Seq<char>) -> bool;

/// Whether a pattern that `regex` accepts matches somewhere in a text,
/// as `Regex::is_match` reports.
pub uninterp spec fn regex_finds(pattern: Seq<char>, text: Seq<char>) -> bool;

/// Calls `regex::Regex::new` and reports whether it succeeded; the
/// contract names the answer `regex_compiles`.
#[verifier::external_body]
pub(crate) fn regex_valid(pattern: &str) -> (r: bool)
    ensures
        r == regex_compiles(pattern@),
{
    regex::Regex::new(pattern).is_ok()
}

/// Compiles a pattern with `regex::Regex::new` and runs `Regex::is_match`
/// on a text; the contract names the answer `regex_finds`. Only called on
/// patterns that compile.
#[verifier::external_body]
pub(crate) fn regex_is_match(pattern: &str, text: &str) -> (r: bool)
    requires
        regex_compiles(pattern@),
    ensures
        r == regex_finds(pattern@, text@),
{
    match regex::Regex::new(pattern) {
        Ok(re) => re.is_match(text),
        Err(_) => false,
    }
}

} // verus!
