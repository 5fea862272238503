//! Verified core of a client for the Stripe REST API.
//!
//! The library decides what is sent to the server and what becomes of the answers; it
//! sends nothing itself. `resources` builds the requests, `page` holds one page of a
//! paginated collection and says how the next is asked for, and `walker` and `collector`
//! lead through a whole collection, page after page. `run` states what such a walk amounts
//! to from its first step to its last.

pub mod collector;
pub mod error;
pub mod ids;
pub mod openapi;
pub mod outside;
pub mod page;
pub mod params;
pub mod path;
pub mod request;
pub mod resources;
pub mod run;
pub mod text;
pub mod walker;
