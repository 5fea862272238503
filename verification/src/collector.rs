//! The whole collection at once.
//!
//! A `Collector` drives a walk and keeps what it hands out. It gives the items back
//! together when the walk has ended, and nothing but the error when the walk fails. Like
//! the walk it never talks to a server itself: it stops where a page has to be fetched, and
//! goes on with the answer.

use vstd::prelude::*;
use crate::error::StripeError;
use crate::page::{response_view, Answer, List, Page, PageRequest};
use crate::params::Paginate;
use crate::path::is_versioned;
use crate::run::{
    answers, is_chain, items_of, lemma_failed_fetch, lemma_walk_in_order, oks, rank, run,
};
use crate::walker::{resumed, step, Step, StepView, Suspended, SuspendedView, Walk, Walker};

verus! {

/// A collector, as contracts speak of it.
pub struct CollectorView<T> {
    /// The items collected so far.
    pub items: Seq<T>,
    /// Where the walk stands.
    pub walk: Walk<T>,
}

/// A collector that waits for a page, as contracts speak of it.
pub struct AwaitingView<T> {
    /// The items collected so far.
    pub items: Seq<T>,
    /// The walk, which waits for the page.
    pub suspended: SuspendedView<T>,
}

/// What a collector has come to, as contracts speak of it.
pub enum ProgressView<T> {
    Fetch(AwaitingView<T>),
    Done(Result<Seq<T>, StripeError>),
}

/// What collecting comes to from a walk at `walk`, with `items` in hand, up to the point
/// where the walk ends or asks for a page: each item that the walk hands out is added to
/// those in hand; an error of the walk takes their place.
pub open spec fn drained<T: Paginate>(items: Seq<T>, walk: Walk<T>) -> ProgressView<T>
    decreases rank(walk),
{
    match step(walk) {
        StepView::Yield { item, rest } => drained(items.push(item), rest),
        StepView::Fetch(suspended) => ProgressView::Fetch(AwaitingView { items, suspended }),
        StepView::Fail(error) => ProgressView::Done(Err(error)),
        StepView::End => ProgressView::Done(Ok(items)),
    }
}

/// What a waiting collector goes on with when the answer to its request is `response`: the
/// item that the walk held back joins those in hand, and the walk continues as `resumed`
/// says.
pub open spec fn continued<T>(
    awaiting: AwaitingView<T>,
    response: Answer<T>,
) -> CollectorView<T> {
    let (item, rest) = resumed(awaiting.suspended, response);
    CollectorView { items: awaiting.items.push(item), walk: rest }
}

/// Collects the items of a whole collection.
pub struct Collector<T> {
    items: Vec<T>,
    walker: Walker<T>,
}

impl<T> View for Collector<T> {
    type V = CollectorView<T>;

    closed spec fn view(&self) -> CollectorView<T> {
        CollectorView { items: self.items@, walk: self.walker@ }
    }
}

impl<T> Collector<T> {
    /// A collector of what `walker` is yet to hand out.
    pub fn new(walker: Walker<T>) -> (collector: Self)
        ensures
            collector@ == (CollectorView { items: Seq::empty(), walk: walker@ }),
    {
        Collector { items: Vec::new(), walker }
    }
}

/// A collector that waits for the page after the one it has used up.
pub struct Awaiting<T> {
    items: Vec<T>,
    suspended: Suspended<T>,
}

impl<T> View for Awaiting<T> {
    type V = AwaitingView<T>;

    closed spec fn view(&self) -> AwaitingView<T> {
        AwaitingView { items: self.items@, suspended: self.suspended@ }
    }
}

/// How far a collector has come.
pub enum Progress<T> {
    /// The next page has to be fetched before collecting can go on.
    Fetch(Awaiting<T>),
    /// Collecting has ended: with all items of the collection, or with the error that
    /// broke it off.
    Done(Result<Vec<T>, StripeError>),
}

impl<T> View for Progress<T> {
    type V = ProgressView<T>;

    open spec fn view(&self) -> ProgressView<T> {
        match *self {
            Progress::Fetch(awaiting) => ProgressView::Fetch(awaiting@),
            Progress::Done(Ok(items)) => ProgressView::Done(Ok(items@)),
            Progress::Done(Err(error)) => ProgressView::Done(Err(error)),
        }
    }
}

impl<T: Paginate> Collector<T> {
    /// Collects until the walk ends or asks for a page.
    pub fn advance(self) -> (progress: Progress<T>)
        ensures
            progress@ == drained(self@.items, self@.walk),
    {
        let ghost goal = drained(self@.items, self@.walk);
        let Collector { items, walker } = self;
        let mut items = items;
        let mut walker = walker;
        loop
            invariant
                goal == drained(self@.items, self@.walk),
                drained(items@, walker@) == goal,
            decreases rank(walker@),
        {
            match walker.advance() {
                Step::Yield { item, rest } => {
                    items.push(item);
                    walker = rest;
                },
                Step::Fetch(suspended) => {
                    return Progress::Fetch(Awaiting { items, suspended });
                },
                Step::Fail(error) => {
                    return Progress::Done(Err(error));
                },
                Step::End => {
                    return Progress::Done(Ok(items));
                },
            }
        }
    }
}

impl<T> Awaiting<T> {
    /// The request that brings the page the collector waits for.
    pub fn request(&self) -> (request: &PageRequest)
        ensures
            request@ == self@.suspended.request,
    {
        self.suspended.request()
    }

    /// Goes on collecting, given the answer to the request.
    pub fn resume(self, response: Result<List<T>, StripeError>) -> (collector: Collector<T>)
        ensures
            collector@ == continued(self@, response_view(response)),
    {
        let Awaiting { items, suspended } = self;
        let mut items = items;
        let (item, walker) = suspended.resume(response);
        items.push(item);
        Collector { items, walker }
    }
}

/// What a consumer keeps of the elements that a walk hands out, where it stops at the
/// first error: that error, or, where there is none, all the items.
pub open spec fn gathered<T>(yielded: Seq<Result<T, StripeError>>) -> Result<Seq<T>, StripeError>
    decreases yielded.len(),
{
    if yielded.len() == 0 {
        Ok(Seq::empty())
    } else {
        match yielded.first() {
            Err(error) => Err(error),
            Ok(item) => match gathered(yielded.drop_first()) {
                Ok(items) => Ok(seq![item] + items),
                Err(error) => Err(error),
            },
        }
    }
}

/// `outcome` with `items` put in front of what it holds.
pub open spec fn preceded<T>(items: Seq<T>, outcome: Result<Seq<T>, StripeError>) -> Result<
    Seq<T>,
    StripeError,
> {
    match outcome {
        Ok(more) => Ok(items + more),
        Err(error) => Err(error),
    }
}

/// What a collector comes to in the end, from a walk at `walk` and with `items` in hand,
/// where `responses` are the answers to its requests, in this order. It comes to nothing
/// where a request finds no answer.
pub open spec fn collected<T: Paginate>(
    items: Seq<T>,
    walk: Walk<T>,
    responses: Seq<Answer<T>>,
) -> Option<Result<Seq<T>, StripeError>>
    decreases responses.len(),
{
    match drained(items, walk) {
        ProgressView::Done(outcome) => Some(outcome),
        ProgressView::Fetch(awaiting) => {
            if responses.len() == 0 {
                None
            } else {
                let next = continued(awaiting, responses.first());
                collected(next.items, next.walk, responses.drop_first())
            }
        },
    }
}

/// The collector keeps what the walk hands out, and stops at the first error: it comes to
/// an end where the walk does, and then with the items in hand followed by those that the
/// walk hands out, or with the error of the walk alone.
pub proof fn lemma_collected<T: Paginate>(
    items: Seq<T>,
    walk: Walk<T>,
    responses: Seq<Answer<T>>,
)
    ensures
        collected(items, walk, responses) == (if run(walk, responses).finished {
            Some(preceded(items, gathered(run(walk, responses).yielded)))
        } else {
            None
        }),
    decreases responses.len(), rank(walk),
{
    match step(walk) {
        StepView::End => {},
        StepView::Fail(_) => {},
        StepView::Yield { item, rest } => {
            lemma_collected(items.push(item), rest, responses);
            lemma_gathered_after(item, run(rest, responses).yielded);
            lemma_preceded_push(items, item, gathered(run(rest, responses).yielded));
        },
        StepView::Fetch(suspended) => {
            if responses.len() > 0 {
                let (item, rest) = resumed(suspended, responses.first());
                let later = responses.drop_first();
                lemma_collected(items.push(item), rest, later);
                lemma_gathered_after(item, run(rest, later).yielded);
                lemma_preceded_push(items, item, gathered(run(rest, later).yielded));
            }
        },
    }
}

/// An item in front of the elements changes what is gathered by that item alone.
proof fn lemma_gathered_after<T>(item: T, yielded: Seq<Result<T, StripeError>>)
    ensures
        gathered(oks(seq![item]) + yielded) == preceded(seq![item], gathered(yielded)),
{
    let all = oks(seq![item]) + yielded;
    assert(all.drop_first() =~= yielded);
}

/// To put `items` and then `item` in front is to put `item` in front first.
proof fn lemma_preceded_push<T>(items: Seq<T>, item: T, outcome: Result<Seq<T>, StripeError>)
    ensures
        preceded(items.push(item), outcome) == preceded(items, preceded(seq![item], outcome)),
{
    match outcome {
        Ok(more) => {
            assert(items.push(item) + more =~= items + (seq![item] + more));
        },
        Err(_) => {},
    }
}

/// Where every element is an item, all of them are gathered.
pub proof fn lemma_gathered_items<T>(items: Seq<T>)
    ensures
        gathered(oks(items)) == Ok::<Seq<T>, StripeError>(items),
    decreases items.len(),
{
    if items.len() > 0 {
        let rest = items.drop_first();
        lemma_gathered_items(rest);
        assert(oks(items).drop_first() =~= oks(rest));
        assert(seq![items.first()] + rest =~= items);
    } else {
        assert(items =~= Seq::<T>::empty());
    }
}

/// Where an error follows the items, the error alone is gathered.
pub proof fn lemma_gathered_error<T>(items: Seq<T>, error: StripeError)
    ensures
        gathered(oks(items).push(Err(error))) == Err::<Seq<T>, StripeError>(error),
    decreases items.len(),
{
    if items.len() > 0 {
        let rest = items.drop_first();
        lemma_gathered_error(rest, error);
        assert(oks(items).push(Err(error)).drop_first() =~= oks(rest).push(Err(error)));
    }
}

/// Collecting over a chain of pages comes to the items of all pages, in order.
pub proof fn lemma_collect_in_order<T: Paginate>(pages: Seq<Page<T>>)
    requires
        is_chain(pages),
    ensures
        collected(Seq::empty(), Walk::Page(pages.first()), answers(pages.drop_first())) == Some(
            Ok::<Seq<T>, StripeError>(items_of(pages)),
        ),
{
    lemma_walk_in_order(pages);
    lemma_collected(Seq::empty(), Walk::Page(pages.first()), answers(pages.drop_first()));
    lemma_gathered_items(items_of(pages));
}

/// A failed request fails the collection: where the answer to the request for the second
/// page is an error, collecting comes to that error, and to none of the items.
pub proof fn lemma_collect_fails<T: Paginate>(
    page: Page<T>,
    responses: Seq<Answer<T>>,
    error: StripeError,
)
    requires
        page.has_more,
        page.data.len() > 0,
        is_versioned(page.url),
        responses.len() > 0,
        responses.first() == Err::<Page<T>, StripeError>(error),
    ensures
        collected(Seq::empty(), Walk::Page(page), responses) == Some(
            Err::<Seq<T>, StripeError>(error),
        ),
{
    lemma_failed_fetch(page, responses, error);
    lemma_collected(Seq::empty(), Walk::Page(page), responses);
    lemma_gathered_error(page.data, error);
}

} // verus!
