//! Merging the contributors of all repositories into one ranked sequence.

use crate::parallel::{flatten_all, map_each, seqs_of, sort_by_contributions};
use crate::records::ContributorRecord;
use std::cmp::Ordering;
use vstd::prelude::*;

verus! {

/// The mathematical value of one entry of the ranking.
pub struct RankedContributor {
    pub name: Seq<char>,
    pub contributions: nat,
}

/// One entry of the ranking: a login and its contribution count in one
/// repository. A login that contributed to several repositories has one
/// entry for each of them; the counts are not summed.
#[derive(Debug, Clone, PartialEq, Eq)]
pub struct GHContributorResult {
    pub name: String,
    pub contributions: u32,
}

impl View for GHContributorResult {
    type V = RankedContributor;

    open spec fn view(&self) -> RankedContributor {
        RankedContributor { name: self.name@, contributions: self.contributions as nat }
    }
}

/// The entry that stands for a contributor record: same login, same count.
pub open spec fn entry_of(record: ContributorRecord) -> GHContributorResult {
    GHContributorResult { name: record.login, contributions: record.contributions }
}

impl From<ContributorRecord> for GHContributorResult {
    fn from(value: ContributorRecord) -> (entry: Self) {
        to_entry(value)
    }
}

impl vstd::std_specs::convert::FromSpecImpl<ContributorRecord> for GHContributorResult {
    open spec fn obeys_from_spec() -> bool {
        true
    }

    open spec fn from_spec(value: ContributorRecord) -> Self {
        entry_of(value)
    }
}

/// The order of the ranking: an entry with more contributions comes before
/// one with fewer, and entries with the same count are equal in it.
pub open spec fn descending_order(a: RankedContributor, b: RankedContributor) -> Ordering {
    if a.contributions > b.contributions {
        Ordering::Less
    } else if a.contributions < b.contributions {
        Ordering::Greater
    } else {
        Ordering::Equal
    }
}

/// Compares two entries in the order of the ranking.
pub fn by_contributions_descending(
    a: &GHContributorResult,
    b: &GHContributorResult,
) -> (order: Ordering)
    ensures
        order == descending_order(a@, b@),
{
    if a.contributions > b.contributions {
        Ordering::Less
    } else if a.contributions < b.contributions {
        Ordering::Greater
    } else {
        Ordering::Equal
    }
}

/// The values of a sequence of entries.
pub open spec fn views(entries: Seq<GHContributorResult>) -> Seq<RankedContributor> {
    entries.map_values(|entry: GHContributorResult| entry@)
}

/// The entries to rank: one for every contributor record of every
/// repository, repository by repository in the order given and within a
/// repository in the order of its records.
pub open spec fn merged(per_repo: Seq<Seq<ContributorRecord>>) -> Seq<RankedContributor> {
    per_repo.flatten().map_values(|record: ContributorRecord| entry_of(record)@)
}

/// No entry is followed, anywhere behind it, by one with more contributions.
pub open spec fn descending(ranking: Seq<RankedContributor>) -> bool {
    forall|i: int, j: int|
        0 <= i < j < ranking.len() ==> ranking[i].contributions >= ranking[j].contributions
}

/// The entries with exactly `count` contributions, in the order in which
/// they stand in `entries`.
pub open spec fn with_count(entries: Seq<RankedContributor>, count: nat) -> Seq<RankedContributor> {
    entries.filter(|entry: RankedContributor| entry.contributions == count)
}

/// The two sequences hold, for every count, the same entries with that count
/// in the same order.
pub open spec fn same_order_within_counts(
    a: Seq<RankedContributor>,
    b: Seq<RankedContributor>,
) -> bool {
    forall|count: nat| #[trigger] with_count(a, count) == with_count(b, count)
}

/// `ranking` is the ranking of `entries`: it holds them by descending
/// contribution count, and those with equal counts in the order in which
/// `entries` has them.
pub open spec fn is_ranking_of(
    ranking: Seq<RankedContributor>,
    entries: Seq<RankedContributor>,
) -> bool {
    &&& descending(ranking)
    &&& same_order_within_counts(ranking, entries)
}

/// Makes the entry of a contributor record.
pub fn to_entry(record: ContributorRecord) -> (entry: GHContributorResult)
    ensures
        entry == entry_of(record),
{
    GHContributorResult { name: record.login, contributions: record.contributions }
}

/// Ranks the contributors of all repositories: one entry for every
/// contributor record, by descending contribution count, entries with equal
/// counts in the order of the repositories and of their records.
pub fn rank_contributors(
    per_repo: Vec<Vec<ContributorRecord>>,
) -> (ranking: Vec<GHContributorResult>)
    ensures
        is_ranking_of(views(ranking@), merged(seqs_of(per_repo@))),
{
    let records = flatten_all(per_repo);
    let mut entries = map_each(records, to_entry);
    assert(views(entries@) =~= merged(seqs_of(per_repo@)));
    sort_by_contributions(&mut entries);
    entries
}

} // verus!
