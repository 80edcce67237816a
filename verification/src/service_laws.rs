//! What holds of every aggregation.

use crate::errors::AggregationError;
use crate::ranking::{descending, merged, views, with_count, GHContributorResult};
use crate::ranking_laws::lemma_ranking_keeps_entries;
use crate::service::AggregationTrace;
use vstd::prelude::*;

verus! {

/// An organization without repositories has the empty ranking, and no error:
/// where the repository listing ends without a failure and without a
/// repository, the aggregation returns no entry.
pub proof fn lemma_no_repositories(
    trace: AggregationTrace,
    org_name: String,
    result: Result<Vec<GHContributorResult>, AggregationError>,
)
    requires
        trace.fails_fast(),
        trace.concludes(org_name, result),
        trace.repositories.failure is None,
        trace.repos().len() == 0,
    ensures
        result matches Ok(ranking) && ranking@.len() == 0,
{
    let ranking = result->Ok_0;
    lemma_ranking_keeps_entries(views(ranking@), merged(trace.per_repo()));
}

/// The aggregation fails exactly when one of its page fetches failed, and
/// then returns an error and no entry at all, whatever the other listings
/// gave. After a failed repository listing no contributors were listed.
pub proof fn lemma_fail_fast(
    trace: AggregationTrace,
    org_name: String,
    result: Result<Vec<GHContributorResult>, AggregationError>,
)
    requires
        trace.fails_fast(),
        trace.concludes(org_name, result),
    ensures
        result is Err <==> trace.failed(),
        trace.repositories.failure is Some ==> trace.contributors.len() == 0 && result matches Err(
            AggregationError::RepositoryListing(_),
        ),
        trace.repositories.failure is None && trace.failed() ==> result matches Err(
            AggregationError::ContributorListing(_),
        ),
{
}

/// An aggregation that succeeds listed the contributors of every repository,
/// and returns one entry for each of their records: by descending
/// contribution count, and for every count the entries with that count in
/// the order in which their records were listed.
pub proof fn lemma_success_ranks_all(
    trace: AggregationTrace,
    org_name: String,
    result: Result<Vec<GHContributorResult>, AggregationError>,
)
    requires
        trace.fails_fast(),
        trace.concludes(org_name, result),
        result is Ok,
    ensures
        trace.contributors.len() == trace.repos().len(),
        result->Ok_0@.len() == trace.per_repo().flatten().len(),
        descending(views(result->Ok_0@)),
        forall|count: nat| #[trigger]
            with_count(views(result->Ok_0@), count) == with_count(merged(trace.per_repo()), count),
{
    let ranking = result->Ok_0;
    lemma_ranking_keeps_entries(views(ranking@), merged(trace.per_repo()));
}

} // verus!
