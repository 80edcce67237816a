//! What holds of every ranking.

use crate::ranking::{
    descending, is_ranking_of, merged, same_order_within_counts, with_count, RankedContributor,
};
use crate::records::ContributorRecord;
use vstd::prelude::*;
use vstd::seq_lib::lemma_flatten_concat;

verus! {

/// The occurrences of `entry` in `entries`.
spec fn occurrences(
    entries: Seq<RankedContributor>,
    entry: RankedContributor,
) -> Seq<RankedContributor> {
    entries.filter(|other: RankedContributor| other == entry)
}

/// Where some entry has `count` contributions, a position holds such an entry.
proof fn lemma_count_occurs(entries: Seq<RankedContributor>, count: nat)
    requires
        with_count(entries, count).len() > 0,
    ensures
        exists|i: int| 0 <= i < entries.len() && (#[trigger] entries[i]).contributions == count,
{
    let pred = |entry: RankedContributor| entry.contributions == count;
    let found = entries.filter(pred)[0];
    entries.lemma_filter_pred(pred, 0);
    entries.lemma_filter_contains_rev(pred, found);
}

/// Counts that never rise along a chain of neighbours do not rise from any
/// position to a later one.
proof fn lemma_neighbours_to_pairs(ranking: Seq<RankedContributor>, i: int, j: int)
    requires
        forall|k: int|
            0 <= k && k + 1 < ranking.len() ==> (#[trigger] ranking[k]).contributions
                >= ranking[k + 1].contributions,
        0 <= i <= j < ranking.len(),
    ensures
        ranking[i].contributions >= ranking[j].contributions,
    decreases j - i,
{
    if i < j {
        lemma_neighbours_to_pairs(ranking, i + 1, j);
    }
}

/// A sequence is descending exactly when, in every pair of neighbours, the
/// first has at least as many contributions as the second.
pub proof fn lemma_descending_by_neighbours(ranking: Seq<RankedContributor>)
    ensures
        descending(ranking) <==> forall|k: int|
            0 <= k && k + 1 < ranking.len() ==> (#[trigger] ranking[k]).contributions
                >= ranking[k + 1].contributions,
{
    if forall|k: int|
        0 <= k && k + 1 < ranking.len() ==> (#[trigger] ranking[k]).contributions >= ranking[k
            + 1].contributions {
        assert forall|i: int, j: int| 0 <= i < j < ranking.len() implies ranking[i].contributions
            >= ranking[j].contributions by {
            lemma_neighbours_to_pairs(ranking, i, j);
        }
    }
}

/// In a ranking, every entry has at least as many contributions as the one
/// that follows it.
pub proof fn lemma_ranking_descends(
    ranking: Seq<RankedContributor>,
    entries: Seq<RankedContributor>,
    k: int,
)
    requires
        is_ranking_of(ranking, entries),
        0 <= k,
        k + 1 < ranking.len(),
    ensures
        ranking[k].contributions >= ranking[k + 1].contributions,
{
}

/// Two descending sequences that hold, for every count, the same entries
/// with that count in the same order are the same sequence.
proof fn lemma_descending_same_counts(a: Seq<RankedContributor>, b: Seq<RankedContributor>)
    requires
        descending(a),
        descending(b),
        same_order_within_counts(a, b),
    ensures
        a == b,
    decreases a.len(),
{
    reveal(Seq::filter);
    if a.len() == 0 {
        if b.len() > 0 {
            // The last entry of `b` would stand among those of its count in `a`.
            assert(with_count(a, b.last().contributions) == with_count(
                b,
                b.last().contributions,
            ));
        }
    } else {
        // The last entries have the lowest counts, and each count occurs in
        // both sequences: the two ends have the same count, and so are the
        // same entry, the last of those with that count.
        let c = a.last().contributions;
        let d = b.last().contributions;
        assert(with_count(a, c) == with_count(b, c));
        lemma_count_occurs(b, c);
        lemma_count_occurs(a, d);
        assert(a.last() == b.last()) by {
            assert(with_count(b, c).last() == b.last());
        }
        // Without them, the sequences still agree count by count.
        let a1 = a.drop_last();
        let b1 = b.drop_last();
        assert forall|k: nat| #[trigger] with_count(a1, k) == with_count(b1, k) by {
            assert(with_count(a, k) == with_count(b, k));
            if k == c {
                assert(with_count(b1, k) =~= with_count(b, k).drop_last());
            }
        }
        lemma_descending_same_counts(a1, b1);
        assert(b =~= b1.push(b.last()));
    }
}

/// Given entries have one ranking only.
pub proof fn lemma_ranking_unique(
    a: Seq<RankedContributor>,
    b: Seq<RankedContributor>,
    entries: Seq<RankedContributor>,
)
    requires
        is_ranking_of(a, entries),
        is_ranking_of(b, entries),
    ensures
        a == b,
{
    lemma_descending_same_counts(a, b);
}

/// An entry occurs in a sequence as often as the sequence, seen as a
/// multiset, counts it.
proof fn lemma_occurrences_counted(entries: Seq<RankedContributor>, entry: RankedContributor)
    ensures
        entries.to_multiset().count(entry) == occurrences(entries, entry).len(),
    decreases entries.len(),
{
    reveal(Seq::filter);
    if entries.len() == 0 {
        entries.to_multiset_ensures();
    } else {
        let rest = entries.drop_last();
        lemma_occurrences_counted(rest, entry);
        rest.to_multiset_ensures();
        assert(entries =~= rest.push(entries.last()));
    }
}

/// The occurrences of an entry all stand among the entries with its count.
proof fn lemma_occurrences_within_count(entries: Seq<RankedContributor>, entry: RankedContributor)
    ensures
        occurrences(entries, entry) == occurrences(
            with_count(entries, entry.contributions),
            entry,
        ),
    decreases entries.len(),
{
    reveal(Seq::filter);
    if entries.len() > 0 {
        let rest = entries.drop_last();
        lemma_occurrences_within_count(rest, entry);
        let inner = with_count(rest, entry.contributions);
        if entries.last().contributions == entry.contributions {
            assert(inner.push(entries.last()).drop_last() =~= inner);
        }
    }
}

/// A sequence that holds, for every count, the entries of another with that
/// count holds each entry as often as the other does, and so is as long.
proof fn lemma_same_entries(a: Seq<RankedContributor>, b: Seq<RankedContributor>)
    requires
        same_order_within_counts(a, b),
    ensures
        a.to_multiset() == b.to_multiset(),
        a.len() == b.len(),
{
    assert forall|entry: RankedContributor|
        a.to_multiset().count(entry) == b.to_multiset().count(entry) by {
        lemma_occurrences_counted(a, entry);
        lemma_occurrences_counted(b, entry);
        lemma_occurrences_within_count(a, entry);
        lemma_occurrences_within_count(b, entry);
    }
    a.to_multiset_ensures();
    b.to_multiset_ensures();
}

/// A ranking holds each of the entries it ranks, as often as they hold it,
/// and nothing else.
pub proof fn lemma_ranking_keeps_entries(
    ranking: Seq<RankedContributor>,
    entries: Seq<RankedContributor>,
)
    requires
        is_ranking_of(ranking, entries),
    ensures
        ranking.to_multiset() == entries.to_multiset(),
        ranking.len() == entries.len(),
{
    lemma_same_entries(ranking, entries);
}

/// A repository without contributors adds no entry: the entries to rank are
/// those of the other repositories.
pub proof fn lemma_empty_repository_adds_nothing(per_repo: Seq<Seq<ContributorRecord>>, k: int)
    requires
        0 <= k < per_repo.len(),
        per_repo[k].len() == 0,
    ensures
        merged(per_repo) == merged(per_repo.remove(k)),
{
    let before = per_repo.take(k);
    let single = seq![per_repo[k]];
    let after = per_repo.skip(k + 1);
    assert(per_repo =~= before + single + after);
    lemma_flatten_concat(before + single, after);
    lemma_flatten_concat(before, single);
    lemma_flatten_concat(before, after);
    single.lemma_flatten_one_element();
}

} // verus!
