//! Requests to the API, as values.
//!
//! The functions of `resources` say what is to be sent; sending it is left to the caller.

use vstd::prelude::*;
use vstd::string::*;

verus! {

/// The verb of a request.
#[derive(Clone, Copy, Debug, PartialEq, Eq)]
pub enum Method {
    Get,
    Post,
    Delete,
}

/// A request to the API.
#[derive(Debug)]
pub struct Request<P> {
    pub method: Method,
    /// The path of the resource below the versioned root of the API.
    pub path: String,
    /// The parameters, where the request has any: the query of a `Get`, the form of a
    /// `Post`.
    pub params: Option<P>,
}

/// The path that consists of `head`, `id` and `tail`, in this order.
pub fn path_of(head: &str, id: &str, tail: &str) -> (path: String)
    ensures
        path@ == head@ + id@ + tail@,
{
    let mut path = String::from_str(head);
    path.append(id);
    path.append(tail);
    path
}

} // verus!
