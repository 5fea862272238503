//! Errors reported by the library.

use vstd::prelude::*;
use crate::outside::{json_error_text, query_error_text};

verus! {

/// Message of the error raised when a stored page address does not start with the
/// version segment this library works with.
pub const CROSS_VERSION: &'static str =
    "URL for fetching additional data uses different API version";

/// Message of the error raised when a page holds no items and still announces more.
pub const EMPTY_PAGE: &'static str = "empty page announces further items";

/// Why an operation of this library failed.
#[derive(Debug, PartialEq, Eq)]
pub enum StripeError {
    /// The stored page address belongs to another version of the API.
    Unsupported(&'static str),
    /// The server answered in a way the pagination protocol forbids.
    Unexpected(&'static str),
    /// The transport could not complete the request.
    Transport(String),
    /// Query parameters could not be encoded, or a response body could not be decoded.
    Serialize(String),
}

impl StripeError {
    /// The error that reports that parameters could not be encoded. Its message is what
    /// `error` says of itself.
    pub fn encoding(error: &serde_qs::Error) -> (reported: StripeError)
        ensures
            reported is Serialize,
    {
        StripeError::Serialize(query_error_text(error))
    }

    /// The error that reports that a body could not be decoded. Its message is what
    /// `error` says of itself.
    pub fn decoding(error: &serde_json::Error) -> (reported: StripeError)
        ensures
            reported is Serialize,
    {
        StripeError::Serialize(json_error_text(error))
    }

    /// A description of the error for people to read.
    pub fn message(&self) -> (text: &str)
        ensures
            text@ == (match *self {
                StripeError::Unsupported(m) => m@,
                StripeError::Unexpected(m) => m@,
                StripeError::Transport(m) => m@,
                StripeError::Serialize(m) => m@,
            }),
    {
        match self {
            StripeError::Unsupported(m) => m,
            StripeError::Unexpected(m) => m,
            StripeError::Transport(m) => m.as_str(),
            StripeError::Serialize(m) => m.as_str(),
        }
    }
}

} // verus!
