//! The operations that rayon carries out in parallel. Their contracts are
//! not proved here: each states what rayon's documentation and source show
//! of the calls in its body.
//!
//! Collecting a parallel iterator into a vector keeps the order of the
//! iterator. The examples in rayon's documentation of `map`, `flatten` and
//! `collect` compare the vector collected with what the sequential calls
//! give; its `par_extend` for `Vec` fills the vector in place where the
//! iterator knows its length, and otherwise appends the parts that it
//! collected one after the other. `par_sort_by` is documented as stable.

use crate::ranking::{by_contributions_descending, is_ranking_of, views, GHContributorResult};
use rayon::iter::{IntoParallelIterator, ParallelIterator};
use rayon::slice::ParallelSliceMut;
use vstd::prelude::*;

verus! {

/// The vectors of `nested` as sequences.
pub open spec fn seqs_of<T>(nested: Seq<Vec<T>>) -> Seq<Seq<T>> {
    nested.map_values(|inner: Vec<T>| inner@)
}

/// Calls rayon's `into_par_iter`, `map` and `collect`. Believed of them:
/// `f` is applied to each item, and the vector collected holds the results
/// in the order of the items, as a sequential `map` and `collect` would.
/// `f` must take every item.
#[verifier::external_body]
pub(crate) fn map_each<T: Send, U: Send, F: Fn(T) -> U + Sync + Send>(
    items: Vec<T>,
    f: F,
) -> (mapped: Vec<U>)
    requires
        forall|i: int| 0 <= i < items@.len() ==> call_requires(f, (#[trigger] items@[i],)),
    ensures
        mapped@.len() == items@.len(),
        forall|i: int|
            0 <= i < items@.len() ==> call_ensures(f, (items@[i],), #[trigger] mapped@[i]),
{
    items.into_par_iter().map(f).collect()
}

/// Calls rayon's `into_par_iter`, `flatten` and `collect`. Believed of them:
/// the vector collected holds the items of the first inner vector, then
/// those of the second, and so on, each in its order, as a sequential
/// `flatten` and `collect` would.
#[verifier::external_body]
pub(crate) fn flatten_all<T: Send>(nested: Vec<Vec<T>>) -> (flat: Vec<T>)
    ensures
        flat@ == seqs_of(nested@).flatten(),
{
    nested.into_par_iter().flatten().collect()
}

/// Calls rayon's `par_sort_by` with `by_contributions_descending` as the
/// comparator, which is a total order on the contribution counts. Believed
/// of it: it leaves the entries sorted by that comparator, so that no entry
/// is followed by one with more contributions; and it is stable, so that
/// entries which compare equal, those with the same contribution count, keep
/// their order.
#[verifier::external_body]
pub(crate) fn sort_by_contributions(entries: &mut Vec<GHContributorResult>)
    ensures
        is_ranking_of(views(final(entries)@), views(old(entries)@)),
{
    entries.par_sort_by(|a, b| by_contributions_descending(a, b));
}

} // verus!
