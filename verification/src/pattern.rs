//! Regular expressions, as the `regex` crate compiles and runs them.
//!
//! Nothing in this module is proved. It gives names to what the `regex`
//! crate computes, so that the validators built on top of it can state
//! exactly which of its answers they return.

use vstd::prelude::*;

verus! {

/// The error of `regex::Regex::new`, carried through without being read.
#[verifier::external_type_specification]
#[verifier::external_body]
pub struct ExRegexError(regex::Error);

/// Whether `regex::Regex::new` accepts `pattern`: the syntax is valid and
/// the compiled program stays under the crate's default size limit.
pub uninterp spec fn regex_compiles(pattern: Seq<char>) -> bool;

/// What `regex::Regex::is_match` answers for `text` on the expression
/// that `regex::Regex::new` builds from `pattern`: whether the expression
/// matches anywhere in `text`.
pub uninterp spec fn regex_is_match(pattern: Seq<char>, text: Seq<char>) -> bool;

/// Runs `regex::Regex::new` on `pattern` and keeps only whether it
/// succeeded, handing the crate's error back where it did not. The
/// contract names the outcome [`regex_compiles`] and claims nothing else.
#[verifier::external_body]
pub(crate) fn compile(pattern: &str) -> (outcome: Result<(), regex::Error>)
    ensures
        outcome is Ok <==> regex_compiles(pattern@),
{
    match regex::Regex::new(pattern) {
        Ok(_) => Ok(()),
        Err(cause) => Err(cause),
    }
}

/// Builds the expression with `regex::Regex::new` and searches `text`
/// with `regex::Regex::is_match`. The expression is built anew for every
/// search, so that the answer depends on the two texts alone. The
/// contract claims that building succeeds exactly when [`regex_compiles`]
/// says so, and names the answer of the search [`regex_is_match`].
#[verifier::external_body]
pub(crate) fn search(pattern: &str, text: &str) -> (outcome: Result<bool, regex::Error>)
    ensures
        outcome is Ok <==> regex_compiles(pattern@),
        outcome matches Ok(found) ==> found == regex_is_match(pattern@, text@),
{
    match regex::Regex::new(pattern) {
        Ok(expression) => Ok(expression.is_match(text)),
        Err(cause) => Err(cause),
    }
}

} // verus!
