//! The description of the API: the OpenAPI document that the server publishes.

use vstd::prelude::*;
use crate::error::StripeError;

verus! {

/// Whether a type made from the description is an enum or a struct.
#[derive(Clone, Copy, Debug, PartialEq, Eq)]
pub enum TypeKeyword {
    Enum,
    Struct,
}

/// Where in the description a type was found.
#[derive(Clone, Copy, Debug, PartialEq, Eq)]
pub enum TypeSourceKind {
    Schema,
    RequestParams,
}

/// What is known of a type made from the description.
#[derive(Clone, Copy, Debug, Default, PartialEq, Eq)]
pub struct TypeData {}

/// Whether `raw` is a JSON document, as `serde_json::from_str` decides it.
pub uninterp spec fn is_json(raw: Seq<char>) -> bool;

/// Calls `serde_json::from_str`, which parses `raw` as one JSON document and reports where
/// it is none. The contract only gives the question whether it is one its name; it says
/// nothing of the document that comes out.
#[verifier::external_body]
fn json_from_str(raw: &str) -> (json: Result<serde_json::Value, serde_json::Error>)
    ensures
        json is Ok == is_json(raw@),
{
    serde_json::from_str(raw)
}

/// Parses the text of the description.
///
/// The description is a JSON document; a text that is none is reported as an error.
pub fn parse(raw: &str) -> (spec: Result<serde_json::Value, StripeError>)
    ensures
        spec is Ok == is_json(raw@),
        spec is Err ==> spec->Err_0 is Serialize,
{
    match json_from_str(raw) {
        Ok(json) => Ok(json),
        Err(error) => Err(StripeError::decoding(&error)),
    }
}

} // verus!
