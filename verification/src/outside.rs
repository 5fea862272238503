//! The types of other crates that pass through this library.
//!
//! The library hands values of these types on and reads nothing in them, except for the
//! text in which an error describes itself.

use vstd::prelude::*;

verus! {

/// The error of `serde_qs`, the crate that encodes parameters as a query string.
#[verifier::external_type_specification]
#[verifier::external_body]
pub struct ExQueryError(serde_qs::Error);

/// The error of `serde_json`, the crate that decodes JSON documents.
#[verifier::external_type_specification]
#[verifier::external_body]
pub struct ExJsonError(serde_json::Error);

/// A JSON document, as `serde_json` holds it.
#[verifier::external_type_specification]
#[verifier::external_body]
pub struct ExJson(serde_json::Value);

/// Calls `to_string` on a `serde_qs::Error`, which writes the error out for people to
/// read. Nothing is claimed of the text.
#[verifier::external_body]
pub(crate) fn query_error_text(error: &serde_qs::Error) -> String {
    error.to_string()
}

/// Calls `to_string` on a `serde_json::Error`, which writes the error out for people to
/// read. Nothing is claimed of the text.
#[verifier::external_body]
pub(crate) fn json_error_text(error: &serde_json::Error) -> String {
    error.to_string()
}

} // verus!
