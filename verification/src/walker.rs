//! A walk over a whole collection, one item at a time.
//!
//! A `Walker` hands out the items of a page in the order in which the server delivered
//! them. When the page is used up and the server has announced more, it says which request
//! brings the next page, and goes on with the answer. It never talks to a server itself:
//! whoever drives it makes the request and hands back what came.

use vstd::prelude::*;
use crate::error::{StripeError, EMPTY_PAGE};
use crate::page::{
    borrowed, received, request_after, response_view, Answer, List, Page, PageRequest,
    PageRequestView,
};
use crate::params::{AsCursor, Paginate};
use crate::path::{continuation_path, is_versioned};

verus! {

/// Where a walk stands, as contracts speak of it.
pub enum Walk<T> {
    /// On a page: `data` holds the items of it that are still to come.
    Page(Page<T>),
    /// All items have been handed out; what is left is to report this error.
    Failed(StripeError),
    /// Nothing is left.
    Done,
}

/// A walk that waits for a page, as contracts speak of it.
pub struct SuspendedView<T> {
    /// The last item of the page that is used up.
    pub item: T,
    /// The request that brings the following page.
    pub request: PageRequestView,
}

/// One step of a walk, as contracts speak of it.
pub enum StepView<T> {
    Yield { item: T, rest: Walk<T> },
    Fetch(SuspendedView<T>),
    Fail(StripeError),
    End,
}

/// The step that a walk takes next.
///
/// On a page with several items left, the first of them is handed out. The last item of a
/// page that announces nothing more ends the walk. The last item of a page that announces
/// more calls for the following page, by a request that starts after this very item; where
/// no such request may be made, the item is handed out and the walk fails afterwards. A
/// page without items ends the walk, with an error where it announces more.
pub open spec fn step<T: Paginate>(walk: Walk<T>) -> StepView<T> {
    match walk {
        Walk::Done => StepView::End,
        Walk::Failed(error) => StepView::Fail(error),
        Walk::Page(page) => {
            if page.data.len() == 0 {
                if page.has_more {
                    StepView::Fail(StripeError::Unexpected(EMPTY_PAGE))
                } else {
                    StepView::End
                }
            } else {
                let item = page.data.first();
                if page.data.len() > 1 {
                    StepView::Yield {
                        item,
                        rest: Walk::Page(Page { data: page.data.drop_first(), ..page }),
                    }
                } else if !page.has_more {
                    StepView::Yield { item, rest: Walk::Done }
                } else {
                    match request_after(page.url, item.cursor_text(), page.params) {
                        Ok(request) => StepView::Fetch(SuspendedView { item, request }),
                        Err(error) => StepView::Yield { item, rest: Walk::Failed(error) },
                    }
                }
            }
        },
    }
}

/// How a waiting walk goes on when the answer to its request is `response`: the item that
/// was held back is handed out, and the walk continues on the page that came, with the
/// parameters of the walk put back on it, or fails with the error that came.
pub open spec fn resumed<T>(suspended: SuspendedView<T>, response: Answer<T>) -> (T, Walk<T>) {
    match received(response, suspended.request.params) {
        Ok(page) => (suspended.item, Walk::Page(page)),
        Err(error) => (suspended.item, Walk::Failed(error)),
    }
}

/// A walk asks for a page only at the last item of a page that announces more, and then
/// for what comes after that very item: the request starts after the cursor of the item,
/// goes to the address of the page without its version segment, and carries the parameters
/// of the walk.
pub proof fn lemma_fetch_after_last_item<T: Paginate>(walk: Walk<T>)
    requires
        step(walk) is Fetch,
    ensures
        walk matches Walk::Page(page) && {
            &&& page.data.len() == 1
            &&& page.has_more
            &&& is_versioned(page.url)
            &&& step(walk) == StepView::Fetch(
                SuspendedView {
                    item: page.data.last(),
                    request: PageRequestView {
                        path: continuation_path(
                            page.url,
                            page.data.last().cursor_text(),
                            page.params,
                        ),
                        params: page.params,
                    },
                },
            )
        },
{
}

/// The parameters of a walk stay what they are: the page that comes in answer to a
/// request is walked with the parameters of the page before it, whatever it brought.
pub proof fn lemma_resumed_keeps_params<T: Paginate>(walk: Walk<T>, next: Page<T>)
    requires
        step(walk) is Fetch,
    ensures
        walk matches Walk::Page(page) && resumed(step(walk)->Fetch_0, Ok(next)) == (
            page.data.last(),
            Walk::Page(next.with_params(page.params)),
        ),
{
}

enum State<T> {
    /// The list holds the remaining items last-first, so that the next one is taken from
    /// its end.
    Page(List<T>),
    Failed(StripeError),
    Done,
}

/// A walk over a collection, from a first page on.
pub struct Walker<T> {
    state: State<T>,
}

impl<T> View for Walker<T> {
    type V = Walk<T>;

    closed spec fn view(&self) -> Walk<T> {
        match self.state {
            State::Page(list) => Walk::Page(Page { data: list.data@.reverse(), ..list@ }),
            State::Failed(error) => Walk::Failed(error),
            State::Done => Walk::Done,
        }
    }
}

/// A walk that waits for the page after the one it has used up.
pub struct Suspended<T> {
    item: T,
    request: PageRequest,
}

impl<T> View for Suspended<T> {
    type V = SuspendedView<T>;

    closed spec fn view(&self) -> SuspendedView<T> {
        SuspendedView { item: self.item, request: self.request@ }
    }
}

/// What a walker does next.
pub enum Step<T> {
    /// `item` is the next item of the collection; `rest` walks over what follows it.
    Yield { item: T, rest: Walker<T> },
    /// The next page has to be fetched before the walk can go on.
    Fetch(Suspended<T>),
    /// The walk ends with this error.
    Fail(StripeError),
    /// The walk ends: the collection has no further item.
    End,
}

impl<T> View for Step<T> {
    type V = StepView<T>;

    open spec fn view(&self) -> StepView<T> {
        match *self {
            Step::Yield { item, rest } => StepView::Yield { item, rest: rest@ },
            Step::Fetch(suspended) => StepView::Fetch(suspended@),
            Step::Fail(error) => StepView::Fail(error),
            Step::End => StepView::End,
        }
    }
}

/// The items of `items`, last first.
fn reversed<T>(items: Vec<T>) -> (back: Vec<T>)
    ensures
        back@ == items@.reverse(),
{
    let mut items = items;
    let ghost all = items@;
    let mut back: Vec<T> = Vec::new();
    while items.len() > 0
        invariant
            items@ == all.take(items.len() as int),
            items.len() <= all.len(),
            back@ == all.skip(items.len() as int).reverse(),
        decreases items.len(),
    {
        let item = items.pop().unwrap();
        back.push(item);
    }
    back
}

impl<T> Walker<T> {
    /// A walk over the collection that `first` is the first page of.
    pub fn new(first: List<T>) -> (walker: Self)
        ensures
            walker@ == Walk::Page(first@),
    {
        let ghost page = first@;
        let list = List {
            data: reversed(first.data),
            has_more: first.has_more,
            total_count: first.total_count,
            url: first.url,
            params: first.params,
        };
        assert(list.data@.reverse() =~= page.data);
        Walker { state: State::Page(list) }
    }
}

impl<T: Paginate> Walker<T> {
    /// Takes the next step of the walk.
    pub fn advance(self) -> (next: Step<T>)
        ensures
            next@ == step(self@),
    {
        match self.state {
            State::Done => Step::End,
            State::Failed(error) => Step::Fail(error),
            State::Page(list) => {
                let ghost page = Page { data: list.data@.reverse(), ..list@ };
                let List { data, has_more, total_count, url, params } = list;
                let mut data = data;
                match data.pop() {
                    None => {
                        if has_more {
                            Step::Fail(StripeError::Unexpected(EMPTY_PAGE))
                        } else {
                            Step::End
                        }
                    },
                    Some(item) => {
                        assert(data@.reverse() =~= page.data.drop_first());
                        if data.len() > 0 {
                            let rest = List { data, has_more, total_count, url, params };
                            Step::Yield { item, rest: Walker { state: State::Page(rest) } }
                        } else if !has_more {
                            Step::Yield { item, rest: Walker { state: State::Done } }
                        } else {
                            let cursor = item.cursor();
                            match List::<T>::get_next(
                                url.as_str(),
                                cursor.as_cursor(),
                                borrowed(&params),
                            ) {
                                Ok(request) => Step::Fetch(Suspended { item, request }),
                                Err(error) => Step::Yield {
                                    item,
                                    rest: Walker { state: State::Failed(error) },
                                },
                            }
                        }
                    },
                }
            },
        }
    }
}

impl<T> Suspended<T> {
    /// The request that brings the page the walk waits for.
    pub fn request(&self) -> (request: &PageRequest)
        ensures
            request@ == self@.request,
    {
        &self.request
    }

    /// Goes on with the walk, given the answer to the request.
    ///
    /// Returns the item that was held back, which is the next item of the collection, and
    /// the walk over what follows it.
    pub fn resume(self, response: Result<List<T>, StripeError>) -> (next: (T, Walker<T>))
        ensures
            (next.0, next.1@) == resumed(self@, response_view(response)),
    {
        let Suspended { item, request } = self;
        match request.receive(response) {
            Ok(page) => (item, Walker::new(page)),
            Err(error) => (item, Walker { state: State::Failed(error) }),
        }
    }
}

} // verus!
