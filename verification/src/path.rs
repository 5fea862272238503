//! Where the page after a given one is asked for.
//!
//! A page records the address it came from, with the API version as its first segment.
//! The request for the following page goes to that address without the version segment,
//! carries the cursor of the last item seen, and repeats the caller's own query parameters.

use vstd::prelude::*;
use vstd::string::*;
use crate::error::{StripeError, CROSS_VERSION};
use crate::text::{
    chars_of, contains_char, lemma_trim_start, matches_at, trim_start, trim_start_index,
};

verus! {

/// The version segment that every stored page address starts with.
pub const VERSION_PREFIX: &'static str = "/v1/";

/// The query key under which the cursor travels, with its `=`.
pub const CURSOR_KEY: &'static str = "starting_after=";

/// Whether `url` starts with the version segment.
pub open spec fn is_versioned(url: Seq<char>) -> bool {
    VERSION_PREFIX@.is_prefix_of(url)
}

/// `url` without its leading version segments.
pub open spec fn unversioned(url: Seq<char>) -> Seq<char> {
    trim_start(url, VERSION_PREFIX@)
}

/// The character that joins the cursor parameter to `base`: `&` where `base` already has
/// a query string, `?` where it has none.
pub open spec fn separator(base: Seq<char>) -> char {
    if base.contains('?') {
        '&'
    } else {
        '?'
    }
}

/// What the caller's parameters add to the end of the request: nothing where there are
/// none or they are empty, else `&` and the parameters as they stand.
pub open spec fn params_suffix(params: Option<Seq<char>>) -> Seq<char> {
    match params {
        Some(p) => if p.len() > 0 {
            seq!['&'] + p
        } else {
            Seq::empty()
        },
        None => Seq::empty(),
    }
}

/// The target of the request for the page that follows the item with `cursor`, for a page
/// stored under `url` and asked for with `params`.
pub open spec fn continuation_path(
    url: Seq<char>,
    cursor: Seq<char>,
    params: Option<Seq<char>>,
) -> Seq<char> {
    let base = unversioned(url);
    base + seq![separator(base)] + CURSOR_KEY@ + cursor + params_suffix(params)
}

/// A continuation target never starts with the version segment.
pub proof fn lemma_continuation_unversioned(
    url: Seq<char>,
    cursor: Seq<char>,
    params: Option<Seq<char>>,
)
    ensures
        !is_versioned(continuation_path(url, cursor, params)),
{
    reveal_strlit("/v1/");
    let prefix = VERSION_PREFIX@;
    lemma_trim_start(url, prefix);
    assert(prefix[0] == '/' && prefix[1] == 'v' && prefix[2] == '1' && prefix[3] == '/');
}

/// An address that holds the version segment once loses just that: what follows the
/// segment is what remains.
pub proof fn lemma_unversioned_once(rest: Seq<char>)
    requires
        !is_versioned(rest),
    ensures
        is_versioned(VERSION_PREFIX@ + rest),
        unversioned(VERSION_PREFIX@ + rest) == rest,
{
    reveal_strlit("/v1/");
    let url = VERSION_PREFIX@ + rest;
    assert(url.skip(VERSION_PREFIX@.len() as int) =~= rest);
    assert(trim_start(rest, VERSION_PREFIX@) == rest);
}

/// The version segment is taken off: for a page stored under the version segment and
/// `rest`, where `rest` has no query string and the collection was asked for without
/// parameters, the request goes to `rest`, with the cursor as its only parameter.
pub proof fn lemma_continuation_of_plain_address(rest: Seq<char>, cursor: Seq<char>)
    requires
        !is_versioned(rest),
        !rest.contains('?'),
    ensures
        continuation_path(VERSION_PREFIX@ + rest, cursor, None) == rest + seq!['?'] + CURSOR_KEY@
            + cursor,
{
    lemma_unversioned_once(rest);
}

/// The parameters of the caller are carried along: a request for a collection that was
/// asked for with parameters ends with `&` and these parameters.
pub proof fn lemma_continuation_carries_params(
    url: Seq<char>,
    cursor: Seq<char>,
    params: Seq<char>,
)
    requires
        params.len() > 0,
    ensures
        (seq!['&'] + params).is_suffix_of(continuation_path(url, cursor, Some(params))),
{
}

/// Whether `url` starts with the version segment.
pub fn has_version_prefix(url: &str) -> (versioned: bool)
    ensures
        versioned == is_versioned(url@),
{
    let text = chars_of(url);
    let prefix = chars_of(VERSION_PREFIX);
    matches_at(&text, 0, &prefix)
}

/// The target of the request for the page that follows the item `last_id`, or the reason
/// why no such request may be made.
///
/// `url` is the address stored with the current page and `params` the query parameters
/// that the caller asked for the collection with, already encoded.
pub fn next_page_path(url: &str, last_id: &str, params: Option<&str>) -> (path: Result<
    String,
    StripeError,
>)
    ensures
        is_versioned(url@) ==> path is Ok && path->Ok_0@ == continuation_path(
            url@,
            last_id@,
            params.deep_view(),
        ),
        !is_versioned(url@) ==> path == Err::<String, StripeError>(
            StripeError::Unsupported(CROSS_VERSION),
        ),
{
    if !has_version_prefix(url) {
        return Err(StripeError::Unsupported(CROSS_VERSION));
    }
    let text = chars_of(url);
    let prefix = chars_of(VERSION_PREFIX);
    proof {
        reveal_strlit("/v1/");
    }
    let start: usize = trim_start_index(&text, &prefix);
    let base = url.substring_char(start, text.len());
    let has_query = contains_char(&chars_of(base), '?');
    let mut path = String::from_str(base);
    proof {
        reveal_strlit("&");
        reveal_strlit("?");
    }
    if has_query {
        path.append("&");
    } else {
        path.append("?");
    }
    path.append(CURSOR_KEY);
    path.append(last_id);
    match params {
        Some(p) => {
            if p.unicode_len() > 0 {
                path.append("&");
                path.append(p);
            }
        },
        None => {},
    }
    Ok(path)
}

} // verus!
