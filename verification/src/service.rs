//! The aggregation over a transport that lists pages of repositories and of
//! contributors.

use crate::errors::{AggregationError, FetchError};
use crate::page::{
    announces_next, answers_of, concat_items, fetch_all, lemma_concat_items_from_pages, lists,
    ListingTrace, Page,
};
use crate::parallel::seqs_of;
use crate::ranking::{
    descending, is_ranking_of, merged, rank_contributors, views, GHContributorResult,
};
use crate::records::{
    all_have_owners, references, repository_refs, ContributorRecord, RepositoryDescriptor,
    RepositoryRef, TransportError,
};
use vstd::prelude::*;

verus! {

/// The page size of every request: 100 items, the most that the provider
/// allows.
pub const PER_PAGE_SIZE: u8 = 100;

/// What the listing of the repositories of `owner` comes to: the references
/// of the repositories listed, in their order, or the transport error that
/// ended the listing, together with the owner whose listing it was.
pub fn repositories_located(
    owner: &String,
    listed: Result<Vec<RepositoryDescriptor>, TransportError>,
) -> (result: Result<Vec<RepositoryRef>, FetchError>)
    requires
        listed matches Ok(repos) ==> all_have_owners(repos@),
    ensures
        (match listed {
            Ok(repos) => result matches Ok(refs) && refs@ == references(repos@),
            Err(cause) => result == Err::<Vec<RepositoryRef>, FetchError>(
                FetchError { owner: *owner, cause },
            ),
        }),
{
    match listed {
        Ok(repos) => Ok(repository_refs(repos)),
        Err(cause) => Err(FetchError { owner: owner.clone(), cause }),
    }
}

/// What the contributor listings of all repositories come to, once all of
/// them have ended: the ranking of all their records, or, where one of them
/// failed, its transport error as it came, and nothing of the others.
pub fn contributors_ranked(
    joined: Result<Vec<Vec<ContributorRecord>>, TransportError>,
) -> (result: Result<Vec<GHContributorResult>, AggregationError>)
    ensures
        (match joined {
            Ok(per_repo) => result matches Ok(ranking) && is_ranking_of(
                views(ranking@),
                merged(seqs_of(per_repo@)),
            ),
            Err(cause) => result == Err::<Vec<GHContributorResult>, AggregationError>(
                AggregationError::ContributorListing(cause),
            ),
        }),
{
    match joined {
        Ok(per_repo) => Ok(rank_contributors(per_repo)),
        Err(cause) => Err(AggregationError::ContributorListing(cause)),
    }
}

/// The aggregation service over a transport, which is given as two
/// operations: one lists a page of the repositories of an owner, the other a
/// page of the contributors of a repository. Each takes the page index and
/// the page size last.
pub struct GithubService<R, C> {
    pub list_repos_page: R,
    pub list_contributors_page: C,
    pub per_page_size: u8,
}

/// What an aggregation saw of its transport: the listing of the
/// repositories, and the listings of the contributors of the repositories
/// for which it asked, in the order of the repositories.
pub struct AggregationTrace {
    pub repositories: ListingTrace<RepositoryDescriptor, TransportError>,
    pub contributors: Seq<ListingTrace<ContributorRecord, TransportError>>,
}

impl AggregationTrace {
    /// The repositories that the repository listing gave.
    pub open spec fn repos(self) -> Seq<RepositoryDescriptor> {
        concat_items(self.repositories.pages)
    }

    /// The contributor records that each contributor listing gave.
    pub open spec fn per_repo(self) -> Seq<Seq<ContributorRecord>> {
        self.contributors.map_values(
            |listing: ListingTrace<ContributorRecord, TransportError>| concat_items(listing.pages),
        )
    }

    /// Some page fetch of the aggregation failed.
    pub open spec fn failed(self) -> bool {
        ||| self.repositories.failure is Some
        ||| exists|k: int|
            0 <= k < self.contributors.len() && (#[trigger] self.contributors[k]).failure is Some
    }

    /// The aggregation stopped at the first failure: after a failed
    /// repository listing no contributors were listed; else the contributors
    /// of the repositories were listed in their order, up to the first
    /// listing that failed, or those of all of them.
    pub open spec fn fails_fast(self) -> bool {
        &&& self.repositories.failure is Some ==> self.contributors.len() == 0
        &&& self.contributors.len() <= self.repos().len()
        &&& forall|k: int|
            0 <= k < self.contributors.len() - 1 ==> (#[trigger] self.contributors[k]).failure
                is None
        &&& self.contributors.len() < self.repos().len() ==> self.failed()
    }

    /// `result` is what an aggregation for `org_name` with this trace
    /// returns: the failure of the repository listing, together with the
    /// organization; or the first failure of a contributor listing, as it
    /// came; or else the ranking of the contributors of all repositories.
    pub open spec fn concludes(
        self,
        org_name: String,
        result: Result<Vec<GHContributorResult>, AggregationError>,
    ) -> bool {
        if self.repositories.failure is Some {
            result == Err::<Vec<GHContributorResult>, AggregationError>(
                AggregationError::RepositoryListing(
                    FetchError { owner: org_name, cause: self.repositories.failure->0 },
                ),
            )
        } else if self.failed() {
            &&& result matches Err(AggregationError::ContributorListing(cause))
            &&& self.contributors.last().failure == Some(cause)
        } else {
            &&& result matches Ok(ranking)
            &&& is_ranking_of(views(ranking@), merged(self.per_repo()))
        }
    }
}

impl<R, C> GithubService<R, C> where
    R: Fn(String, u8, u8) -> Result<Page<RepositoryDescriptor>, TransportError>,
    C: Fn(String, String, u8, u8) -> Result<Page<ContributorRecord>, TransportError>,
 {
    /// The transport takes the request for page `page` of the repositories of
    /// `owner`.
    pub open spec fn takes_repositories_request(&self, owner: &String, page: u8) -> bool {
        call_requires(self.list_repos_page, (*owner, page, self.per_page_size))
    }

    /// The transport can answer the request for page `page` of the
    /// repositories of `owner` with `outcome`.
    pub open spec fn answers_repositories_request(
        &self,
        owner: &String,
        page: u8,
        outcome: Result<Page<RepositoryDescriptor>, TransportError>,
    ) -> bool {
        call_ensures(self.list_repos_page, (*owner, page, self.per_page_size), outcome)
    }

    /// The transport takes the request for page `page` of the contributors
    /// of the repository `repo_name` of `repo_owner`.
    pub open spec fn takes_contributors_request(
        &self,
        repo_owner: &String,
        repo_name: &String,
        page: u8,
    ) -> bool {
        call_requires(
            self.list_contributors_page,
            (*repo_owner, *repo_name, page, self.per_page_size),
        )
    }

    /// The transport can answer the request for page `page` of the
    /// contributors of the repository `repo_name` of `repo_owner` with
    /// `outcome`.
    pub open spec fn answers_contributors_request(
        &self,
        repo_owner: &String,
        repo_name: &String,
        page: u8,
        outcome: Result<Page<ContributorRecord>, TransportError>,
    ) -> bool {
        call_ensures(
            self.list_contributors_page,
            (*repo_owner, *repo_name, page, self.per_page_size),
            outcome,
        )
    }

    /// The answers that the transport can give when asked for the pages of
    /// the repositories of `owner`.
    pub open spec fn repositories_of(&self, owner: String) -> spec_fn(
        u8,
        Result<Page<RepositoryDescriptor>, TransportError>,
    ) -> bool {
        |page: u8, outcome: Result<Page<RepositoryDescriptor>, TransportError>|
            self.answers_repositories_request(&owner, page, outcome)
    }

    /// The answers that the transport can give when asked for the pages of
    /// the contributors of the repository `repo_name` of `repo_owner`.
    pub open spec fn contributors_of(&self, repo_owner: String, repo_name: String) -> spec_fn(
        u8,
        Result<Page<ContributorRecord>, TransportError>,
    ) -> bool {
        |page: u8, outcome: Result<Page<ContributorRecord>, TransportError>|
            self.answers_contributors_request(&repo_owner, &repo_name, page, outcome)
    }

    /// The transport takes every request for a page of the repositories of
    /// `owner`, and the page with the last index announces no further one.
    pub open spec fn serves_repositories(&self, owner: String) -> bool {
        &&& forall|page: u8| self.takes_repositories_request(&owner, page)
        &&& forall|outcome: Result<Page<RepositoryDescriptor>, TransportError>|
            self.answers_repositories_request(&owner, u8::MAX, outcome) ==> !announces_next(
                outcome,
            )
    }

    /// The transport takes every request for a page of the contributors of
    /// the repository `repo_name` of `repo_owner`, and the page with the last
    /// index announces no further one.
    pub open spec fn serves_contributors(&self, repo_owner: String, repo_name: String) -> bool {
        &&& forall|page: u8| self.takes_contributors_request(&repo_owner, &repo_name, page)
        &&& forall|outcome: Result<Page<ContributorRecord>, TransportError>|
            self.answers_contributors_request(&repo_owner, &repo_name, u8::MAX, outcome)
                ==> !announces_next(outcome)
    }

    /// Every repository that the transport lists for `owner` has its owner.
    pub open spec fn names_owners(&self, owner: String) -> bool {
        forall|page: u8, listed: Page<RepositoryDescriptor>|
            self.answers_repositories_request(&owner, page, Ok(listed)) ==> all_have_owners(
                listed.items@,
            )
    }

    /// The transport serves the listing of the contributors of every
    /// repository that it lists for `owner`.
    pub open spec fn serves_listed_repositories(&self, owner: String) -> bool {
        forall|page: u8, listed: Page<RepositoryDescriptor>, i: int|
            #![trigger
                self.answers_repositories_request(&owner, page, Ok(listed)),
                listed.items@[i],
            ]
            self.answers_repositories_request(&owner, page, Ok(listed)) && 0 <= i
                < listed.items@.len() ==> self.serves_contributors(
                listed.items@[i].reference().owner,
                listed.items@[i].reference().name,
            )
    }

    /// The transport serves an aggregation for `org_name`: it serves the
    /// listing of its repositories, names the owner of each, and serves the
    /// listing of the contributors of each.
    pub open spec fn serves(&self, org_name: String) -> bool {
        &&& self.serves_repositories(org_name)
        &&& self.names_owners(org_name)
        &&& self.serves_listed_repositories(org_name)
    }

    /// `trace` is what an aggregation for `org_name` can have seen of this
    /// transport: a whole listing of the repositories from page 0 on, and a
    /// whole listing of the contributors from page 0 on for each repository
    /// that it got to before it stopped.
    pub open spec fn aggregates(&self, org_name: String, trace: AggregationTrace) -> bool {
        &&& trace.repositories.follows(self.repositories_of(org_name), 0)
        &&& trace.repositories.complete()
        &&& trace.fails_fast()
        &&& forall|k: int|
            0 <= k < trace.contributors.len() ==> {
                &&& (#[trigger] trace.contributors[k]).follows(
                    self.contributors_of(
                        trace.repos()[k].reference().owner,
                        trace.repos()[k].reference().name,
                    ),
                    0,
                )
                &&& trace.contributors[k].complete()
            }
    }

    /// `result` is what an aggregation for `org_name` over this transport
    /// returns, for something that it can have seen of the transport.
    pub open spec fn aggregation(
        &self,
        org_name: String,
        result: Result<Vec<GHContributorResult>, AggregationError>,
    ) -> bool {
        exists|trace: AggregationTrace|
            #[trigger] self.aggregates(org_name, trace) && trace.concludes(org_name, result)
    }

    /// `result` is what the listing of the repository references of `owner`
    /// returns, for something that it can have seen of the transport.
    pub open spec fn repository_listing(
        &self,
        owner: String,
        result: Result<Vec<RepositoryRef>, FetchError>,
    ) -> bool {
        exists|trace: ListingTrace<RepositoryDescriptor, TransportError>|
            {
                &&& #[trigger] trace.follows(self.repositories_of(owner), 0)
                &&& trace.complete()
                &&& match trace.failure {
                    Some(cause) => result == Err::<Vec<RepositoryRef>, FetchError>(
                        FetchError { owner, cause },
                    ),
                    None => result matches Ok(refs) && refs@ == references(
                        concat_items(trace.pages),
                    ),
                }
            }
    }

    /// A service over the two operations of a transport. Every request asks
    /// for pages of `PER_PAGE_SIZE` items.
    pub fn new(list_repos_page: R, list_contributors_page: C) -> (service: Self)
        ensures
            service.list_repos_page == list_repos_page,
            service.list_contributors_page == list_contributors_page,
            service.per_page_size == PER_PAGE_SIZE,
    {
        GithubService { list_repos_page, list_contributors_page, per_page_size: PER_PAGE_SIZE }
    }

    /// Lists all repositories of `owner`, page after page from page 0 on.
    /// Returns them in page order, or the first transport error and no
    /// repository.
    pub fn get_repos(
        &self,
        owner: String,
    ) -> (result: Result<Vec<RepositoryDescriptor>, TransportError>)
        requires
            self.serves_repositories(owner),
        ensures
            lists(self.repositories_of(owner), 0, result),
    {
        let fetch_page = |page: u8| -> (outcome: Result<Page<RepositoryDescriptor>, TransportError>)
            requires
                self.takes_repositories_request(&owner, page),
            ensures
                self.answers_repositories_request(&owner, page, outcome),
            { (self.list_repos_page)(owner.clone(), page, self.per_page_size) };
        let result = fetch_all(0, fetch_page);
        proof {
            let trace = choose|trace: ListingTrace<RepositoryDescriptor, TransportError>|
                {
                    &&& #[trigger] trace.follows(answers_of(fetch_page), 0)
                    &&& trace.complete()
                    &&& trace.yields(result)
                };
            assert(trace.follows(self.repositories_of(owner), 0));
        }
        result
    }

    /// Lists all contributors of the repository `repo_name` of `repo_owner`,
    /// page after page from page 0 on. Returns their records as they came, in
    /// page order, or the first transport error and no record.
    pub fn get_repo_contributors(
        &self,
        repo_owner: String,
        repo_name: String,
    ) -> (result: Result<Vec<ContributorRecord>, TransportError>)
        requires
            self.serves_contributors(repo_owner, repo_name),
        ensures
            lists(self.contributors_of(repo_owner, repo_name), 0, result),
    {
        let fetch_page = |page: u8| -> (outcome: Result<Page<ContributorRecord>, TransportError>)
            requires
                self.takes_contributors_request(&repo_owner, &repo_name, page),
            ensures
                self.answers_contributors_request(&repo_owner, &repo_name, page, outcome),
            {
                (self.list_contributors_page)(
                    repo_owner.clone(),
                    repo_name.clone(),
                    page,
                    self.per_page_size,
                )
            };
        let result = fetch_all(0, fetch_page);
        proof {
            let trace = choose|trace: ListingTrace<ContributorRecord, TransportError>|
                {
                    &&& #[trigger] trace.follows(answers_of(fetch_page), 0)
                    &&& trace.complete()
                    &&& trace.yields(result)
                };
            assert(trace.follows(self.contributors_of(repo_owner, repo_name), 0));
        }
        result
    }

    /// Lists the references of all repositories of `owner`, in the order of
    /// the listing. Fails with the first transport error, together with the
    /// owner whose listing it ended.
    pub fn list_repositories(
        &self,
        owner: String,
    ) -> (result: Result<Vec<RepositoryRef>, FetchError>)
        requires
            self.serves_repositories(owner),
            self.names_owners(owner),
        ensures
            self.repository_listing(owner, result),
    {
        let listed = self.get_repos(owner.clone());
        let ghost trace = choose|trace: ListingTrace<RepositoryDescriptor, TransportError>|
            {
                &&& #[trigger] trace.follows(self.repositories_of(owner), 0)
                &&& trace.complete()
                &&& trace.yields(listed)
            };
        proof {
            if listed is Ok {
                let repos = listed->Ok_0;
                assert forall|i: int| 0 <= i < repos@.len() implies (#[trigger] repos@[i])
                    .has_owner() by {
                    lemma_concat_items_from_pages(trace.pages, i);
                }
            }
        }
        repositories_located(&owner, listed)
    }

    /// Ranks the contributors of all repositories of the organization
    /// `org_name`. Lists the repositories; then lists the contributors of
    /// each, in the order of the repositories; then ranks all their records
    /// by descending contribution count, records with equal counts in the
    /// order in which they were listed. The first page fetch that fails ends
    /// the aggregation, and nothing of what was listed is returned.
    pub fn get_repos_with_contributors_v2(
        &self,
        org_name: String,
    ) -> (result: Result<Vec<GHContributorResult>, AggregationError>)
        requires
            self.serves(org_name),
        ensures
            self.aggregation(org_name, result),
            result matches Ok(ranking) ==> descending(views(ranking@)),
    {
        let listed = self.list_repositories(org_name);
        let ghost repositories = choose|trace: ListingTrace<RepositoryDescriptor, TransportError>|
            {
                &&& #[trigger] trace.follows(self.repositories_of(org_name), 0)
                &&& trace.complete()
                &&& match trace.failure {
                    Some(cause) => listed == Err::<Vec<RepositoryRef>, FetchError>(
                        FetchError { owner: org_name, cause },
                    ),
                    None => listed matches Ok(refs) && refs@ == references(
                        concat_items(trace.pages),
                    ),
                }
            };
        let refs = match listed {
            Ok(refs) => refs,
            Err(error) => {
                proof {
                    let trace = AggregationTrace { repositories, contributors: Seq::empty() };
                    assert(self.aggregates(org_name, trace));
                }
                return Err(AggregationError::RepositoryListing(error));
            },
        };
        proof {
            assert forall|i: int| 0 <= i < refs@.len() implies self.serves_contributors(
                (#[trigger] refs@[i]).owner,
                refs@[i].name,
            ) by {
                lemma_concat_items_from_pages(repositories.pages, i);
            }
        }
        let mut per_repo: Vec<Vec<ContributorRecord>> = Vec::new();
        let ghost mut contributors: Seq<ListingTrace<ContributorRecord, TransportError>> =
            Seq::empty();
        let mut k: usize = 0;
        while k < refs.len()
            invariant
                forall|i: int|
                    0 <= i < refs@.len() ==> self.serves_contributors(
                        (#[trigger] refs@[i]).owner,
                        refs@[i].name,
                    ),
                repositories.follows(self.repositories_of(org_name), 0),
                repositories.complete(),
                repositories.failure is None,
                refs@ == references(concat_items(repositories.pages)),
                k <= refs.len(),
                per_repo@.len() == k,
                contributors.len() == k,
                forall|i: int|
                    0 <= i < k ==> {
                        &&& (#[trigger] contributors[i]).follows(
                            self.contributors_of(refs@[i].owner, refs@[i].name),
                            0,
                        )
                        &&& contributors[i].complete()
                        &&& contributors[i].failure is None
                        &&& per_repo@[i]@ == concat_items(contributors[i].pages)
                    },
            decreases refs.len() - k,
        {
            let listed = self.get_repo_contributors(refs[k].owner.clone(), refs[k].name.clone());
            let ghost listing = choose|trace: ListingTrace<ContributorRecord, TransportError>|
                {
                    &&& #[trigger] trace.follows(
                        self.contributors_of(refs@[k as int].owner, refs@[k as int].name),
                        0,
                    )
                    &&& trace.complete()
                    &&& trace.yields(listed)
                };
            proof {
                contributors = contributors.push(listing);
            }
            match listed {
                Ok(records) => {
                    per_repo.push(records);
                },
                Err(cause) => {
                    proof {
                        let trace = AggregationTrace { repositories, contributors };
                        assert(trace.contributors[k as int].failure is Some);
                        assert(self.aggregates(org_name, trace));
                    }
                    return contributors_ranked(Err(cause));
                },
            }
            k += 1;
        }
        proof {
            let trace = AggregationTrace { repositories, contributors };
            assert(self.aggregates(org_name, trace));
            assert(seqs_of(per_repo@) =~= trace.per_repo());
        }
        contributors_ranked(Ok(per_repo))
    }
}

} // verus!
