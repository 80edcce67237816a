//! Draining a paginated listing, page after page, into one sequence.

use vstd::prelude::*;

verus! {

/// One page of a listing: its items and whether a further page follows.
#[derive(Debug, Clone, PartialEq, Eq)]
pub struct Page<T> {
    pub items: Vec<T>,
    pub has_next: bool,
}

/// The outcome of a page fetch is a page after which a further page follows.
pub open spec fn announces_next<T, E>(outcome: Result<Page<T>, E>) -> bool {
    outcome matches Ok(page) && page.has_next
}

/// The items of `pages`, in page order and within a page in item order.
pub open spec fn concat_items<T>(pages: Seq<Page<T>>) -> Seq<T>
    decreases pages.len(),
{
    if pages.len() == 0 {
        Seq::empty()
    } else {
        concat_items(pages.drop_last()) + pages.last().items@
    }
}

/// The number of items on `pages`.
pub open spec fn count_items<T>(pages: Seq<Page<T>>) -> nat
    decreases pages.len(),
{
    if pages.len() == 0 {
        0
    } else {
        count_items(pages.drop_last()) + pages.last().items@.len()
    }
}

/// A listing in progress: the page to fetch next and the items of the pages
/// fetched so far.
pub struct Listing<T> {
    pub page: u8,
    pub items: Vec<T>,
}

/// Where a listing stands after a page fetch.
pub enum Progress<T, E> {
    /// A further page is to be fetched.
    Pending(Listing<T>),
    /// The listing has ended, with all its items or with the error that ended it.
    Finished(Result<Vec<T>, E>),
}

impl<T> Listing<T> {
    /// A listing that starts at page `start_from_page` and holds no items yet.
    pub fn new(start_from_page: u8) -> (listing: Self)
        ensures
            listing.page == start_from_page,
            listing.items@ == Seq::<T>::empty(),
    {
        Listing { page: start_from_page, items: Vec::new() }
    }

    /// The index of the page to fetch next.
    pub fn next_page(&self) -> (page: u8)
        ensures
            page == self.page,
    {
        self.page
    }

    /// Tells whether `absorb` takes `outcome`: it does unless the page with
    /// the last index announces a further one.
    pub fn accepts<E>(&self, outcome: &Result<Page<T>, E>) -> (accepted: bool)
        ensures
            accepted == (announces_next(*outcome) ==> self.page < u8::MAX),
    {
        match outcome {
            Ok(page) => !page.has_next || self.page < u8::MAX,
            Err(_) => true,
        }
    }

    /// Takes in the outcome of fetching page `self.page`. An error ends the
    /// listing with that error and drops the items gathered so far. A page
    /// adds its items behind them; the listing goes on with the following
    /// page if the page announces one, and ends with all the items if not.
    pub fn absorb<E>(self, outcome: Result<Page<T>, E>) -> (progress: Progress<T, E>)
        requires
            announces_next(outcome) ==> self.page < u8::MAX,
        ensures
            (match outcome {
                Err(error) => progress == Progress::<T, E>::Finished(Err(error)),
                Ok(page) => if page.has_next {
                    &&& progress matches Progress::Pending(next)
                    &&& next.page == self.page + 1
                    &&& next.items@ == self.items@ + page.items@
                } else {
                    &&& progress matches Progress::Finished(Ok(items))
                    &&& items@ == self.items@ + page.items@
                },
            }),
    {
        match outcome {
            Ok(page) => {
                let mut items = self.items;
                let mut fresh = page.items;
                items.append(&mut fresh);
                if page.has_next {
                    Progress::Pending(Listing { page: self.page + 1, items })
                } else {
                    Progress::Finished(Ok(items))
                }
            },
            Err(error) => Progress::Finished(Err(error)),
        }
    }
}

/// What a listing saw of its transport: the pages that came back, in the
/// order of the fetches, and the error that ended it, if one did.
pub struct ListingTrace<T, E> {
    pub pages: Seq<Page<T>>,
    pub failure: Option<E>,
}

impl<T, E> ListingTrace<T, E> {
    /// The listing went on exactly as long as pages announced a further one:
    /// every page but the last announces one, and the last does so exactly
    /// when an error came in place of the page behind it.
    pub open spec fn complete(self) -> bool {
        &&& forall|i: int| 0 <= i < self.pages.len() - 1 ==> (#[trigger] self.pages[i]).has_next
        &&& self.failure is None ==> self.pages.len() > 0
        &&& self.pages.len() > 0 ==> (self.pages.last().has_next <==> self.failure is Some)
    }

    /// A transport that answers as `answers` allows, asked for the pages from
    /// `start_from_page` on, one after another, can have answered with the
    /// pages of this trace and then with its error. `answers(page, outcome)`
    /// says that `outcome` is a possible answer to the request for `page`.
    pub open spec fn follows(
        self,
        answers: spec_fn(u8, Result<Page<T>, E>) -> bool,
        start_from_page: u8,
    ) -> bool {
        &&& start_from_page + self.pages.len() <= u8::MAX + 1
        &&& self.failure is Some ==> start_from_page + self.pages.len() <= u8::MAX
        &&& forall|i: int|
            0 <= i < self.pages.len() ==> answers(
                (start_from_page + i) as u8,
                Ok(#[trigger] self.pages[i]),
            )
        &&& self.failure matches Some(error) ==> answers(
            (start_from_page + self.pages.len()) as u8,
            Err(error),
        )
    }

    /// `result` is what a listing with this trace returns: the error that
    /// ended it, or else the items of all its pages.
    pub open spec fn yields(self, result: Result<Vec<T>, E>) -> bool {
        match self.failure {
            Some(error) => result == Err::<Vec<T>, E>(error),
            None => result matches Ok(items) && items@ == concat_items(self.pages),
        }
    }
}

/// `result` is what a listing from `start_from_page` on returns over a
/// transport that answers as `answers` allows: for some pages and, maybe, an
/// error that the transport can have answered with, one after another, until a
/// page announced no further one or the error came, `result` is that error, or
/// else the items of those pages.
pub open spec fn lists<T, E>(
    answers: spec_fn(u8, Result<Page<T>, E>) -> bool,
    start_from_page: u8,
    result: Result<Vec<T>, E>,
) -> bool {
    exists|trace: ListingTrace<T, E>|
        {
            &&& #[trigger] trace.follows(answers, start_from_page)
            &&& trace.complete()
            &&& trace.yields(result)
        }
}

/// The answers that a page-fetch operation can give.
pub open spec fn answers_of<T, E, F: Fn(u8) -> Result<Page<T>, E>>(fetch_page: F) -> spec_fn(
    u8,
    Result<Page<T>, E>,
) -> bool {
    |page: u8, outcome: Result<Page<T>, E>| call_ensures(fetch_page, (page,), outcome)
}

/// Fetches the pages of a listing from `start_from_page` on, in ascending
/// order and one at a time, until a page announces no further page or a fetch
/// fails. Returns the items of all pages in page order, or the first error
/// and none of the items.
///
/// A page index is a `u8`: the page with the last index must not announce a
/// further one.
pub fn fetch_all<T, E, F: Fn(u8) -> Result<Page<T>, E>>(
    start_from_page: u8,
    fetch_page: F,
) -> (result: Result<Vec<T>, E>)
    requires
        forall|page: u8| start_from_page <= page ==> call_requires(fetch_page, (page,)),
        forall|outcome: Result<Page<T>, E>|
            call_ensures(fetch_page, (u8::MAX,), outcome) ==> !announces_next(outcome),
    ensures
        lists(answers_of(fetch_page), start_from_page, result),
{
    let mut listing = Listing::new(start_from_page);
    let ghost mut pages: Seq<Page<T>> = Seq::empty();
    loop
        invariant
            forall|page: u8| start_from_page <= page ==> call_requires(fetch_page, (page,)),
            forall|outcome: Result<Page<T>, E>|
                call_ensures(fetch_page, (u8::MAX,), outcome) ==> !announces_next(outcome),
            listing.page == start_from_page + pages.len(),
            listing.items@ == concat_items(pages),
            forall|i: int| 0 <= i < pages.len() ==> (#[trigger] pages[i]).has_next,
            forall|i: int|
                0 <= i < pages.len() ==> call_ensures(
                    fetch_page,
                    ((start_from_page + i) as u8,),
                    Ok(#[trigger] pages[i]),
                ),
        decreases u8::MAX - listing.page,
    {
        let outcome = fetch_page(listing.page);
        let ghost seen = outcome;
        match listing.absorb(outcome) {
            Progress::Pending(next) => {
                proof {
                    let page = seen->Ok_0;
                    assert(pages.push(page).drop_last() == pages);
                    pages = pages.push(page);
                }
                listing = next;
            },
            Progress::Finished(result) => {
                proof {
                    let trace = match seen {
                        Ok(page) => ListingTrace { pages: pages.push(page), failure: None },
                        Err(error) => ListingTrace { pages, failure: Some(error) },
                    };
                    if seen is Ok {
                        assert(trace.pages.drop_last() == pages);
                    }
                    assert(trace.follows(answers_of(fetch_page), start_from_page));
                }
                return result;
            },
        }
    }
}

/// The pages hold as many items as their concatenation.
pub proof fn lemma_concat_items_len<T>(pages: Seq<Page<T>>)
    ensures
        concat_items(pages).len() == count_items(pages),
    decreases pages.len(),
{
    if pages.len() > 0 {
        lemma_concat_items_len(pages.drop_last());
    }
}

/// The concatenation is in page order and, within a page, in item order:
/// item `j` of page `k` stands behind all items of the pages before page `k`
/// and behind the first `j` items of its own page.
pub proof fn lemma_concat_items_at<T>(pages: Seq<Page<T>>, k: int, j: int)
    requires
        0 <= k < pages.len(),
        0 <= j < pages[k].items@.len(),
    ensures
        count_items(pages.take(k)) + j < concat_items(pages).len(),
        concat_items(pages)[count_items(pages.take(k)) + j] == pages[k].items@[j],
    decreases pages.len(),
{
    let rest = pages.drop_last();
    lemma_concat_items_len(rest);
    if k < pages.len() - 1 {
        lemma_concat_items_at(rest, k, j);
        assert(rest.take(k) =~= pages.take(k));
    }
}

/// Every item of the concatenation is an item of one of the pages.
pub proof fn lemma_concat_items_from_pages<T>(pages: Seq<Page<T>>, i: int)
    requires
        0 <= i < concat_items(pages).len(),
    ensures
        exists|k: int, j: int|
            0 <= k < pages.len() && 0 <= j < pages[k].items@.len() && concat_items(pages)[i]
                == #[trigger] pages[k].items@[j],
    decreases pages.len(),
{
    let rest = pages.drop_last();
    if i < concat_items(rest).len() {
        lemma_concat_items_from_pages(rest, i);
        let (k, j) = choose|k: int, j: int|
            0 <= k < rest.len() && 0 <= j < rest[k].items@.len() && concat_items(rest)[i]
                == #[trigger] rest[k].items@[j];
        assert(pages[k].items@[j] == rest[k].items@[j]);
    } else {
        let k = pages.len() - 1;
        let j = i - concat_items(rest).len();
        assert(concat_items(pages)[i] == pages[k].items@[j]);
    }
}

/// A listing over a transport that can only answer with the pages of
/// `script`, one for each request from `start_from_page` on, of which every
/// page but the last announces a further one, returns the items of all pages
/// of the script, in page order: as many items as the pages hold together.
pub proof fn lemma_scripted_listing<T, E>(
    answers: spec_fn(u8, Result<Page<T>, E>) -> bool,
    start_from_page: u8,
    script: Seq<Page<T>>,
    result: Result<Vec<T>, E>,
)
    requires
        script.len() > 0,
        start_from_page + script.len() <= u8::MAX + 1,
        forall|i: int| 0 <= i < script.len() - 1 ==> (#[trigger] script[i]).has_next,
        !script.last().has_next,
        forall|i: int, outcome: Result<Page<T>, E>|
            0 <= i < script.len() && #[trigger] answers((start_from_page + i) as u8, outcome)
                ==> outcome == Ok::<Page<T>, E>(script[i]),
        lists(answers, start_from_page, result),
    ensures
        result matches Ok(items) && items@ == concat_items(script) && items@.len() == count_items(
            script,
        ),
{
    let trace = choose|trace: ListingTrace<T, E>|
        {
            &&& #[trigger] trace.follows(answers, start_from_page)
            &&& trace.complete()
            &&& trace.yields(result)
        };
    // The pages of the trace are pages of the script, as far as both go.
    // The trace does not go on behind the script, whose last page announces
    // no further one; and it does not stop before the end of the script, where
    // no error comes and every page announces a further one.
    if trace.pages.len() > script.len() {
        assert(trace.pages[script.len() - 1].has_next);
    }
    assert(trace.pages =~= script);
    lemma_concat_items_len(script);
}

/// A listing over a transport that can only answer with the pages of
/// `script`, each of which announces a further one, and to the request behind
/// them only with `error`, returns that error, and none of the items.
pub proof fn lemma_scripted_failure<T, E>(
    answers: spec_fn(u8, Result<Page<T>, E>) -> bool,
    start_from_page: u8,
    script: Seq<Page<T>>,
    error: E,
    result: Result<Vec<T>, E>,
)
    requires
        start_from_page + script.len() <= u8::MAX,
        forall|i: int| 0 <= i < script.len() ==> (#[trigger] script[i]).has_next,
        forall|i: int, outcome: Result<Page<T>, E>|
            0 <= i < script.len() && #[trigger] answers((start_from_page + i) as u8, outcome)
                ==> outcome == Ok::<Page<T>, E>(script[i]),
        forall|outcome: Result<Page<T>, E>| #[trigger]
            answers((start_from_page + script.len()) as u8, outcome) ==> outcome == Err::<
                Page<T>,
                E,
            >(error),
        lists(answers, start_from_page, result),
    ensures
        result == Err::<Vec<T>, E>(error),
{
    let trace = choose|trace: ListingTrace<T, E>|
        {
            &&& #[trigger] trace.follows(answers, start_from_page)
            &&& trace.complete()
            &&& trace.yields(result)
        };
    // The pages of the trace are pages of the script, as far as both go.
    // The trace does not go on behind the script, where only the error
    // comes; and it does not stop before that error, as every page of the
    // script announces a further one.
    if trace.pages.len() > script.len() {
        assert(answers(
            (start_from_page + script.len()) as u8,
            Ok(trace.pages[script.len() as int]),
        ));
    }
}

} // verus!
