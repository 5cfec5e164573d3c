//! JSON text, as `serde_json` reads it.
//!
//! Nothing in this module is proved. Records travel through the crate as
//! text; where one is handed out as a JSON value, `serde_json` does the
//! parsing and this module names its verdict.

use vstd::prelude::*;

verus! {

/// A parsed JSON value of `serde_json`, carried through without being read.
#[verifier::external_type_specification]
#[verifier::external_body]
pub struct ExJsonValue(serde_json::Value);

/// The error of `serde_json::from_str`, carried through without being read.
#[verifier::external_type_specification]
#[verifier::external_body]
pub struct ExJsonError(serde_json::Error);

/// Whether `serde_json::from_str` reads `text` as one JSON value.
pub uninterp spec fn json_parses(text: Seq<char>) -> bool;

/// Parses `text` with `serde_json::from_str` into a `serde_json::Value`.
/// The contract names the verdict [`json_parses`]; it says nothing about
/// the value or the error that comes back.
#[verifier::external_body]
pub(crate) fn parse_json(text: &str) -> (parsed: Result<serde_json::Value, serde_json::Error>)
    ensures
        parsed is Ok <==> json_parses(text@),
{
    serde_json::from_str::<serde_json::Value>(text)
}

} // verus!
