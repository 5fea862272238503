//! One page of a cursor-paginated collection, and how the page after it is asked for.
//!
//! Nothing here talks to a server. `List::next` says what has to be asked, the caller asks
//! it, and `PageRequest::receive` turns the answer into the following page.

use vstd::prelude::*;
use vstd::string::*;
use crate::error::{StripeError, CROSS_VERSION, EMPTY_PAGE};
use crate::params::{AsCursor, Paginate};
use crate::path::{continuation_path, is_versioned, next_page_path};
use crate::walker::{Walk, Walker};

verus! {

/// What a page holds, as contracts speak of it.
pub struct Page<T> {
    /// The items, in the order in which the server delivered them.
    pub data: Seq<T>,
    /// Whether the server holds items beyond this page.
    pub has_more: bool,
    /// The number of items in the whole collection, where the server reports it.
    pub total_count: Option<u64>,
    /// The address the page was fetched from.
    pub url: Seq<char>,
    /// The query parameters the collection was asked for with, already encoded.
    pub params: Option<Seq<char>>,
}

impl<T> Page<T> {
    /// The page with `params` in place of its own parameters.
    pub open spec fn with_params(self, params: Option<Seq<char>>) -> Page<T> {
        Page { params, ..self }
    }

    /// The page that stands for "nothing follows" after `self`: no items, nothing more to
    /// come, and the rest as in `self`.
    pub open spec fn exhausted(self) -> Page<T> {
        Page { data: Seq::empty(), has_more: false, ..self }
    }
}

/// A single page of a cursor-paginated list of an object.
#[derive(Debug)]
pub struct List<T> {
    pub data: Vec<T>,
    pub has_more: bool,
    pub total_count: Option<u64>,
    pub url: String,
    /// The query parameters the list was asked for with, already encoded. A response does
    /// not carry them; they are kept here so that later pages are asked for in the same way.
    pub params: Option<String>,
}

impl<T> View for List<T> {
    type V = Page<T>;

    open spec fn view(&self) -> Page<T> {
        Page {
            data: self.data@,
            has_more: self.has_more,
            total_count: self.total_count,
            url: self.url@,
            params: self.params.deep_view(),
        }
    }
}

/// The request for a following page: where it goes, and the parameters to put back on the
/// page that comes in answer.
#[derive(Debug)]
pub struct PageRequest {
    /// The target of the GET request, query string included.
    pub path: String,
    /// The parameters that the collection was asked for with.
    pub params: Option<String>,
}

/// What stands for a `PageRequest` in contracts.
pub struct PageRequestView {
    pub path: Seq<char>,
    pub params: Option<Seq<char>>,
}

impl View for PageRequest {
    type V = PageRequestView;

    open spec fn view(&self) -> PageRequestView {
        PageRequestView { path: self.path@, params: self.params.deep_view() }
    }
}

/// The answer to a page request, as contracts speak of it: the page that came, or the
/// error that came in its place.
pub type Answer<T> = Result<Page<T>, StripeError>;

/// What the answer to a page request amounts to: the page that came, with `params` put back
/// on it, or the error that came, as it is.
pub open spec fn received<T>(response: Answer<T>, params: Option<Seq<char>>) -> Answer<T> {
    match response {
        Ok(page) => Ok(page.with_params(params)),
        Err(error) => Err(error),
    }
}

/// A response as contracts speak of it: the page by its view, the error as it is.
pub open spec fn response_view<T>(response: Result<List<T>, StripeError>) -> Answer<T> {
    match response {
        Ok(list) => Ok(list@),
        Err(error) => Err(error),
    }
}

impl PageRequest {
    /// Turns the answer to this request into the following page.
    ///
    /// The parameters of the walk are put back on a page that came; an error is handed on
    /// unchanged.
    pub fn receive<T>(self, response: Result<List<T>, StripeError>) -> (next: Result<
        List<T>,
        StripeError,
    >)
        ensures
            response_view(next) == received(response_view(response), self@.params),
    {
        match response {
            Ok(list) => Ok(
                List {
                    data: list.data,
                    has_more: list.has_more,
                    total_count: list.total_count,
                    url: list.url,
                    params: self.params,
                },
            ),
            Err(error) => Err(error),
        }
    }
}

/// How the page after a given one is obtained.
#[derive(Debug)]
pub enum NextPage<T> {
    /// Nothing has to be asked: this is the following page.
    Known(List<T>),
    /// The following page is the answer to this request.
    Request(PageRequest),
}

/// What stands for a `NextPage` in contracts.
pub enum NextPageView<T> {
    Known(Page<T>),
    Request(PageRequestView),
}

impl<T> View for NextPage<T> {
    type V = NextPageView<T>;

    open spec fn view(&self) -> NextPageView<T> {
        match *self {
            NextPage::Known(list) => NextPageView::Known(list@),
            NextPage::Request(request) => NextPageView::Request(request@),
        }
    }
}

/// The request for the page after the item with `cursor`, or the reason why there is none.
pub open spec fn request_after(
    url: Seq<char>,
    cursor: Seq<char>,
    params: Option<Seq<char>>,
) -> Result<PageRequestView, StripeError> {
    if is_versioned(url) {
        Ok(PageRequestView { path: continuation_path(url, cursor, params), params })
    } else {
        Err(StripeError::Unsupported(CROSS_VERSION))
    }
}

/// How the page after `page` is obtained.
///
/// A page with items is followed by the answer to a request that starts after its last
/// item. A page without items that announces none is followed by a page of the same kind.
/// A page without items that announces more breaks the protocol.
pub open spec fn page_after<T: Paginate>(page: Page<T>) -> Result<NextPageView<T>, StripeError> {
    if page.data.len() > 0 {
        match request_after(page.url, page.data.last().cursor_text(), page.params) {
            Ok(request) => Ok(NextPageView::Request(request)),
            Err(error) => Err(error),
        }
    } else if page.has_more {
        Err(StripeError::Unexpected(EMPTY_PAGE))
    } else {
        Ok(NextPageView::Known(page.exhausted()))
    }
}

/// The outcome of `List::get_next` as contracts speak of it.
pub open spec fn request_view(request: Result<PageRequest, StripeError>) -> Result<
    PageRequestView,
    StripeError,
> {
    match request {
        Ok(request) => Ok(request@),
        Err(error) => Err(error),
    }
}

/// The outcome of `List::next` as contracts speak of it.
pub open spec fn next_view<T>(next: Result<NextPage<T>, StripeError>) -> Result<
    NextPageView<T>,
    StripeError,
> {
    match next {
        Ok(next) => Ok(next@),
        Err(error) => Err(error),
    }
}

/// An owned copy of optional text.
pub(crate) fn owned(text: Option<&str>) -> (copy: Option<String>)
    ensures
        copy.deep_view() == text.deep_view(),
{
    match text {
        Some(text) => Some(String::from_str(text)),
        None => None,
    }
}

/// Optional text, borrowed.
pub(crate) fn borrowed(text: &Option<String>) -> (view: Option<&str>)
    ensures
        view.deep_view() == text.deep_view(),
{
    match text {
        Some(text) => Some(text.as_str()),
        None => None,
    }
}

impl<T> List<T> {
    /// The list with the parameters it was asked for with, given the outcome of encoding
    /// them as a query string with `serde_qs::to_string`.
    ///
    /// Where encoding succeeded, the list carries the text from now on. Where it failed,
    /// there is no list, but the report that the parameters could not be encoded.
    pub fn params(self, encoded: Result<String, serde_qs::Error>) -> (list: Result<
        Self,
        StripeError,
    >)
        ensures
            match encoded {
                Ok(text) => response_view(list) == Ok::<Page<T>, StripeError>(
                    self@.with_params(Some(text@)),
                ),
                Err(_) => list is Err && list->Err_0 is Serialize,
            },
    {
        match encoded {
            Ok(text) => Ok(
                List {
                    data: self.data,
                    has_more: self.has_more,
                    total_count: self.total_count,
                    url: self.url,
                    params: Some(text),
                },
            ),
            Err(error) => Err(StripeError::encoding(&error)),
        }
    }

    /// The request for the page after the item `last_id` of a page stored under `url`.
    ///
    /// Prefer `List::next` when possible.
    ///
    /// `url` has to start with the version segment; where it does not, the page belongs to
    /// another version of the API, and there is no request to make.
    pub fn get_next(url: &str, last_id: &str, params: Option<&str>) -> (request: Result<
        PageRequest,
        StripeError,
    >)
        ensures
            request_view(request) == request_after(url@, last_id@, params.deep_view()),
    {
        match next_page_path(url, last_id, params) {
            Ok(path) => Ok(PageRequest { path, params: owned(params) }),
            Err(error) => Err(error),
        }
    }
}

impl<T> List<T> {
    /// A walk over all values of the collection that this list is the first page of.
    ///
    /// The walk hands out the values of this page and then asks for one page after the
    /// other, in the way `List::next` does, until a page announces nothing more.
    pub fn get_all(self) -> (walker: Walker<T>)
        ensures
            walker@ == Walk::Page(self@),
    {
        Walker::new(self)
    }
}

impl<T> Default for List<T> {
    fn default() -> (list: Self)
        ensures
            list@ == (Page::<T> {
                data: Seq::empty(),
                has_more: false,
                total_count: None,
                url: Seq::empty(),
                params: None,
            }),
    {
        List {
            data: Vec::new(),
            has_more: false,
            total_count: None,
            url: String::new(),
            params: None,
        }
    }
}

impl<T: Clone> Clone for List<T> {
    fn clone(&self) -> (list: Self)
        ensures
            list@.has_more == self@.has_more,
            list@.total_count == self@.total_count,
            list@.url == self@.url,
            list@.params == self@.params,
            list@.data.len() == self@.data.len(),
            forall|i: int|
                0 <= i < self@.data.len() ==> cloned(self@.data[i], #[trigger] list@.data[i]),
    {
        List {
            data: self.data.clone(),
            has_more: self.has_more,
            total_count: self.total_count,
            url: self.url.clone(),
            params: self.params.clone(),
        }
    }
}

impl<T: Paginate> List<T> {
    /// How the page after this one is obtained.
    pub fn next(&self) -> (next: Result<NextPage<T>, StripeError>)
        ensures
            next_view(next) == page_after(self@),
    {
        let len: usize = self.data.len();
        if len > 0 {
            let cursor = self.data[len - 1].cursor();
            match Self::get_next(self.url.as_str(), cursor.as_cursor(), borrowed(&self.params)) {
                Ok(request) => Ok(NextPage::Request(request)),
                Err(error) => Err(error),
            }
        } else if self.has_more {
            Err(StripeError::Unexpected(EMPTY_PAGE))
        } else {
            Ok(
                NextPage::Known(
                    List {
                        data: Vec::new(),
                        has_more: false,
                        total_count: self.total_count,
                        url: self.url.clone(),
                        params: self.params.clone(),
                    },
                ),
            )
        }
    }
}

} // verus!
