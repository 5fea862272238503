//! What a walk amounts to when it is driven to its end.
//!
//! `run` plays a walk against the answers that its requests will get, one after the other,
//! and records what is handed out and what is asked. The theorems of this module say what
//! that record is for the walks that matter: over a single page, over a chain of pages, and
//! over a chain that breaks.

use vstd::prelude::*;
use crate::error::{StripeError, CROSS_VERSION};
use crate::page::{Answer, Page};
use crate::params::Paginate;
use crate::path::{
    continuation_path, is_versioned, lemma_continuation_carries_params,
    lemma_continuation_unversioned,
};
use crate::walker::{resumed, step, StepView, Walk};

verus! {

/// The record of a walk.
pub struct Trace<T> {
    /// What was handed out, in order.
    pub yielded: Seq<Result<T, StripeError>>,
    /// The targets of the requests that were made, in order.
    pub requests: Seq<Seq<char>>,
    /// Whether the walk came to its end. It does not where a request finds no answer.
    pub finished: bool,
}

impl<T> Trace<T> {
    /// The record of a walk that ends at once.
    pub open spec fn end() -> Trace<T> {
        Trace { yielded: Seq::empty(), requests: Seq::empty(), finished: true }
    }

    /// The record of handing out `items` and then doing what `self` records.
    pub open spec fn after_items(self, items: Seq<T>) -> Trace<T> {
        Trace { yielded: oks(items) + self.yielded, ..self }
    }

    /// The record of asking for `path` and then doing what `self` records.
    pub open spec fn after_request(self, path: Seq<char>) -> Trace<T> {
        Trace { requests: seq![path] + self.requests, ..self }
    }
}

/// `items`, each as an element that a walk hands out.
pub open spec fn oks<T>(items: Seq<T>) -> Seq<Result<T, StripeError>> {
    items.map_values(|item: T| Ok::<T, StripeError>(item))
}

/// `pages`, each as the answer to a request.
pub open spec fn answers<T>(pages: Seq<Page<T>>) -> Seq<Answer<T>> {
    pages.map_values(|page: Page<T>| Ok::<Page<T>, StripeError>(page))
}

/// A bound on the steps that a walk takes before it ends or asks for a page.
pub open spec fn rank<T>(walk: Walk<T>) -> nat {
    match walk {
        Walk::Page(page) => page.data.len() + 2,
        Walk::Failed(_) => 1,
        Walk::Done => 0,
    }
}

/// The record of the walk that starts at `walk` and finds `responses` as the answers to
/// its requests, in this order.
pub open spec fn run<T: Paginate>(walk: Walk<T>, responses: Seq<Answer<T>>) -> Trace<T>
    decreases responses.len(), rank(walk),
{
    match step(walk) {
        StepView::End => Trace::end(),
        StepView::Fail(error) => Trace {
            yielded: seq![Err::<T, StripeError>(error)],
            requests: Seq::empty(),
            finished: true,
        },
        StepView::Yield { item, rest } => run(rest, responses).after_items(seq![item]),
        StepView::Fetch(suspended) => {
            if responses.len() == 0 {
                Trace {
                    yielded: Seq::empty(),
                    requests: seq![suspended.request.path],
                    finished: false,
                }
            } else {
                let (item, rest) = resumed(suspended, responses.first());
                run(rest, responses.drop_first()).after_items(seq![item]).after_request(
                    suspended.request.path,
                )
            }
        },
    }
}

/// An error ends the walk: whatever the answers, only the last element that a walk hands
/// out can be an error.
pub proof fn lemma_error_is_last<T: Paginate>(
    walk: Walk<T>,
    responses: Seq<Answer<T>>,
)
    ensures
        forall|i: int|
            0 <= i < run(walk, responses).yielded.len() - 1 ==> (#[trigger] run(
                walk,
                responses,
            ).yielded[i]) is Ok,
    decreases responses.len(), rank(walk),
{
    match step(walk) {
        StepView::End => {},
        StepView::Fail(_) => {},
        StepView::Yield { item, rest } => {
            lemma_error_is_last(rest, responses);
            lemma_after_item(run(rest, responses), item);
        },
        StepView::Fetch(suspended) => {
            if responses.len() > 0 {
                let (item, rest) = resumed(suspended, responses.first());
                lemma_error_is_last(rest, responses.drop_first());
                lemma_after_item(run(rest, responses.drop_first()), item);
            }
        },
    }
}

/// What is handed out after an item is what was handed out before, one place further on.
proof fn lemma_after_item<T>(trace: Trace<T>, item: T)
    ensures
        trace.after_items(seq![item]).yielded.len() == trace.yielded.len() + 1,
        trace.after_items(seq![item]).yielded[0] == Ok::<T, StripeError>(item),
        forall|i: int|
            0 < i <= trace.yielded.len() ==> #[trigger] trace.after_items(seq![item]).yielded[i]
                == trace.yielded[i - 1],
{
}

/// No request of a walk goes to an address that starts with the version segment, whatever
/// the answers.
pub proof fn lemma_requests_unversioned<T: Paginate>(
    walk: Walk<T>,
    responses: Seq<Answer<T>>,
)
    ensures
        forall|i: int|
            0 <= i < run(walk, responses).requests.len() ==> !is_versioned(
                #[trigger] run(walk, responses).requests[i],
            ),
    decreases responses.len(), rank(walk),
{
    match step(walk) {
        StepView::End => {},
        StepView::Fail(_) => {},
        StepView::Yield { item, rest } => {
            lemma_requests_unversioned(rest, responses);
            assert(run(walk, responses).requests == run(rest, responses).requests);
        },
        StepView::Fetch(suspended) => {
            let page = walk->Page_0;
            lemma_continuation_unversioned(page.url, suspended.item.cursor_text(), page.params);
            if responses.len() > 0 {
                let (item, rest) = resumed(suspended, responses.first());
                let tail = run(rest, responses.drop_first());
                lemma_requests_unversioned(rest, responses.drop_first());
                assert forall|i: int|
                    0 < i < run(walk, responses).requests.len() implies !is_versioned(
                    #[trigger] run(walk, responses).requests[i],
                ) by {
                    assert(run(walk, responses).requests[i] == tail.requests[i - 1]);
                }
            }
        },
    }
}

/// The parameters of a walk travel with each of its requests: where the first page was
/// asked for with `params`, every request of the walk ends with `&` and these parameters,
/// whatever the answers.
pub proof fn lemma_requests_carry_params<T: Paginate>(
    walk: Walk<T>,
    responses: Seq<Answer<T>>,
    params: Seq<char>,
)
    requires
        params.len() > 0,
        walk matches Walk::Page(page) ==> page.params == Some(params),
    ensures
        forall|i: int|
            0 <= i < run(walk, responses).requests.len() ==> (seq!['&'] + params).is_suffix_of(
                #[trigger] run(walk, responses).requests[i],
            ),
    decreases responses.len(), rank(walk),
{
    match step(walk) {
        StepView::End => {},
        StepView::Fail(_) => {},
        StepView::Yield { item, rest } => {
            lemma_requests_carry_params(rest, responses, params);
            assert(run(walk, responses).requests == run(rest, responses).requests);
        },
        StepView::Fetch(suspended) => {
            let page = walk->Page_0;
            lemma_continuation_carries_params(page.url, suspended.item.cursor_text(), params);
            if responses.len() > 0 {
                let (item, rest) = resumed(suspended, responses.first());
                let tail = run(rest, responses.drop_first());
                lemma_requests_carry_params(rest, responses.drop_first(), params);
                assert forall|i: int| 0 < i < run(walk, responses).requests.len() implies (seq![
                    '&',
                ] + params).is_suffix_of(#[trigger] run(walk, responses).requests[i]) by {
                    assert(run(walk, responses).requests[i] == tail.requests[i - 1]);
                }
            }
        },
    }
}

/// The items of all of `pages`, in order.
pub open spec fn items_of<T>(pages: Seq<Page<T>>) -> Seq<T>
    decreases pages.len(),
{
    if pages.len() == 0 {
        Seq::empty()
    } else {
        pages.first().data + items_of(pages.drop_first())
    }
}

/// The targets of the requests that lead from each of `pages` to the one after it, where
/// the walk was started with `params`.
pub open spec fn requests_of<T: Paginate>(
    pages: Seq<Page<T>>,
    params: Option<Seq<char>>,
) -> Seq<Seq<char>>
    decreases pages.len(),
{
    if pages.len() <= 1 {
        Seq::empty()
    } else {
        seq![
            continuation_path(pages.first().url, pages.first().data.last().cursor_text(), params),
        ] + requests_of(pages.drop_first(), params)
    }
}

/// Whether `pages` can be walked from the first to the last: the last announces nothing
/// more, and each of the others announces more, holds an item to continue after, and is
/// stored under an address of the version this library works with.
pub open spec fn is_chain<T>(pages: Seq<Page<T>>) -> bool {
    &&& pages.len() > 0
    &&& !pages.last().has_more
    &&& forall|i: int|
        0 <= i < pages.len() - 1 ==> {
            &&& (#[trigger] pages[i]).has_more
            &&& pages[i].data.len() > 0
            &&& is_versioned(pages[i].url)
        }
}

/// The walk over a page hands out all items but the last, and then does what the walk
/// over the last item alone does.
proof fn lemma_run_to_last<T: Paginate>(page: Page<T>, responses: Seq<Answer<T>>)
    requires
        page.data.len() > 0,
    ensures
        run(Walk::Page(page), responses) == run(
            Walk::Page(Page { data: seq![page.data.last()], ..page }),
            responses,
        ).after_items(page.data.drop_last()),
    decreases page.data.len(),
{
    if page.data.len() > 1 {
        let last = Page { data: seq![page.data.last()], ..page };
        let rest = Page { data: page.data.drop_first(), ..page };
        let tail = run(Walk::Page(last), responses);
        lemma_run_to_last(rest, responses);
        assert(oks(seq![page.data.first()]) + (oks(rest.data.drop_last()) + tail.yielded) =~= oks(
            page.data.drop_last(),
        ) + tail.yielded);
    }
}

/// A page that announces nothing more is walked without a request: the walk hands out the
/// items of the page, as many as there are and in their order, and ends, whatever answers
/// stand ready.
pub proof fn lemma_last_page<T: Paginate>(page: Page<T>, responses: Seq<Answer<T>>)
    requires
        !page.has_more,
    ensures
        run(Walk::Page(page), responses) == (Trace {
            yielded: oks(page.data),
            requests: Seq::empty(),
            finished: true,
        }),
        run(Walk::Page(page), responses).yielded.len() == page.data.len(),
{
    if page.data.len() == 0 {
        assert(oks(page.data) =~= Seq::<Result<T, StripeError>>::empty());
    } else {
        lemma_run_to_last(page, responses);
        assert(run(Walk::Done, responses) == Trace::<T>::end());
        assert(oks(page.data.drop_last()) + oks(seq![page.data.last()]) =~= oks(page.data));
    }
}

/// A collection without items is walked in no step at all: nothing is handed out and
/// nothing is asked.
pub proof fn lemma_empty_collection<T: Paginate>(
    page: Page<T>,
    responses: Seq<Answer<T>>,
)
    requires
        page.data.len() == 0,
        !page.has_more,
    ensures
        step(Walk::Page(page)) == StepView::<T>::End,
        run(Walk::Page(page), responses) == Trace::<T>::end(),
{
}

/// The walk over a chain of pages, started with `params`, hands out the items of all
/// pages in order and makes one request for each page after the first.
proof fn lemma_chain<T: Paginate>(pages: Seq<Page<T>>, params: Option<Seq<char>>)
    requires
        is_chain(pages),
    ensures
        run(Walk::Page(pages.first().with_params(params)), answers(pages.drop_first())) == (Trace {
            yielded: oks(items_of(pages)),
            requests: requests_of(pages, params),
            finished: true,
        }),
    decreases pages.len(),
{
    let first = pages.first().with_params(params);
    let later = pages.drop_first();
    let responses = answers(later);
    if pages.len() == 1 {
        lemma_last_page(first, responses);
    } else {
        let item = first.data.last();
        lemma_run_to_last(first, responses);
        assert(responses.drop_first() =~= answers(later.drop_first()));
        lemma_chain(later, params);
        assert(oks(first.data.drop_last()) + (oks(seq![item]) + oks(items_of(later))) =~= oks(
            items_of(pages),
        ));
    }
}

/// Order is preserved: the walk over a chain of pages hands out exactly the items of the
/// first page, then those of the second, and so on to the last, and then ends.
///
/// It makes one request for each page after the first. Each request starts after the last
/// item of the page that has just been used up, and carries the parameters of the first
/// page.
pub proof fn lemma_walk_in_order<T: Paginate>(pages: Seq<Page<T>>)
    requires
        is_chain(pages),
    ensures
        run(Walk::Page(pages.first()), answers(pages.drop_first())) == (Trace {
            yielded: oks(items_of(pages)),
            requests: requests_of(pages, pages.first().params),
            finished: true,
        }),
        requests_of(pages, pages.first().params).len() == pages.len() - 1,
        forall|i: int|
            0 <= i < pages.len() - 1 ==> #[trigger] requests_of(pages, pages.first().params)[i]
                == continuation_path(
                pages[i].url,
                pages[i].data.last().cursor_text(),
                pages.first().params,
            ),
{
    let params = pages.first().params;
    lemma_chain(pages, params);
    lemma_requests_of(pages, params);
}

/// `requests_of` holds one request for each page but the last: the one that starts after
/// the last item of that page.
pub proof fn lemma_requests_of<T: Paginate>(pages: Seq<Page<T>>, params: Option<Seq<char>>)
    requires
        pages.len() > 0,
    ensures
        requests_of(pages, params).len() == pages.len() - 1,
        forall|i: int|
            0 <= i < pages.len() - 1 ==> #[trigger] requests_of(pages, params)[i]
                == continuation_path(pages[i].url, pages[i].data.last().cursor_text(), params),
    decreases pages.len(),
{
    if pages.len() > 1 {
        lemma_requests_of(pages.drop_first(), params);
    }
}

/// A failed request ends the walk: where the answer to the request for the second page is
/// an error, the walk hands out the items of the first page, then that error, and ends
/// after this one request.
pub proof fn lemma_failed_fetch<T: Paginate>(
    page: Page<T>,
    responses: Seq<Answer<T>>,
    error: StripeError,
)
    requires
        page.has_more,
        page.data.len() > 0,
        is_versioned(page.url),
        responses.len() > 0,
        responses.first() == Err::<Page<T>, StripeError>(error),
    ensures
        run(Walk::Page(page), responses) == (Trace {
            yielded: oks(page.data).push(Err(error)),
            requests: seq![
                continuation_path(page.url, page.data.last().cursor_text(), page.params),
            ],
            finished: true,
        }),
{
    let item = page.data.last();
    let failed = run(Walk::<T>::Failed(error), responses.drop_first());
    lemma_run_to_last(page, responses);
    assert(oks(page.data.drop_last()) + (oks(seq![item]) + failed.yielded) =~= oks(page.data).push(
        Err(error),
    ));
}

/// A page of another version of the API is never continued: the walk hands out its
/// items, then the error that says so, and makes no request.
pub proof fn lemma_cross_version<T: Paginate>(
    page: Page<T>,
    responses: Seq<Answer<T>>,
)
    requires
        page.has_more,
        page.data.len() > 0,
        !is_versioned(page.url),
    ensures
        run(Walk::Page(page), responses) == (Trace {
            yielded: oks(page.data).push(Err(StripeError::Unsupported(CROSS_VERSION))),
            requests: Seq::empty(),
            finished: true,
        }),
{
    let item = page.data.last();
    let error = StripeError::Unsupported(CROSS_VERSION);
    let failed = run(Walk::<T>::Failed(error), responses);
    lemma_run_to_last(page, responses);
    assert(oks(page.data.drop_last()) + (oks(seq![item]) + failed.yielded) =~= oks(page.data).push(
        Err(error),
    ));
}

} // verus!
