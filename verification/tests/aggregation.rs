use gh_svc::{
    contributors_ranked, contributors_reply, repositories_located, AggregationError,
    ContributorRecord, FetchError, GHContributorResult, GithubService, Page, Reply,
    RepositoryDescriptor, RepositoryRef, TransportError,
};
use std::cell::RefCell;

type RepoPage = Result<Page<RepositoryDescriptor>, TransportError>;

type ContributorPage = Result<Page<ContributorRecord>, TransportError>;

fn repo(owner: &str, name: &str) -> RepositoryDescriptor {
    RepositoryDescriptor { owner_login: Some(owner.to_string()), name: name.to_string() }
}

fn record(login: &str, contributions: u32) -> ContributorRecord {
    ContributorRecord { login: login.to_string(), contributions }
}

fn entry(name: &str, contributions: u32) -> GHContributorResult {
    GHContributorResult { name: name.to_string(), contributions }
}

fn failure(message: &str) -> TransportError {
    TransportError { message: message.to_string() }
}

fn last_page<T>(items: Vec<T>) -> Result<Page<T>, TransportError> {
    Ok(Page { items, has_next: false })
}

fn acme_repos(owner: String, page: u8, _per_page: u8) -> RepoPage {
    assert_eq!(owner, "acme");
    assert_eq!(page, 0);
    last_page(vec![repo("acme", "r1"), repo("acme", "r2")])
}

fn acme_contributors(owner: String, name: String, page: u8, _per_page: u8) -> ContributorPage {
    assert_eq!(owner, "acme");
    assert_eq!(page, 0);
    match name.as_str() {
        "r1" => last_page(vec![record("alice", 10)]),
        "r2" => last_page(vec![record("bob", 20), record("alice", 5)]),
        other => panic!("no repository {}", other),
    }
}

#[test]
fn service_asks_for_pages_of_one_hundred() {
    let service = GithubService::new(acme_repos, acme_contributors);
    assert_eq!(service.per_page_size, 100);
    let sizes: RefCell<Vec<u8>> = RefCell::new(Vec::new());
    let service = GithubService::new(
        |_owner: String, _page: u8, per_page: u8| -> RepoPage {
            sizes.borrow_mut().push(per_page);
            last_page(vec![repo("acme", "r1")])
        },
        |_owner: String, _name: String, _page: u8, per_page: u8| -> ContributorPage {
            sizes.borrow_mut().push(per_page);
            last_page(vec![])
        },
    );
    assert_eq!(service.get_repos_with_contributors_v2("acme".to_string()), Ok(vec![]));
    assert_eq!(*sizes.borrow(), vec![100, 100]);
}

#[test]
fn organization_without_repositories_has_the_empty_ranking() {
    let service = GithubService::new(
        |_owner: String, _page: u8, _per_page: u8| -> RepoPage { last_page(vec![]) },
        |_owner: String, _name: String, _page: u8, _per_page: u8| -> ContributorPage {
            panic!("no repository to ask about")
        },
    );
    assert_eq!(service.get_repos_with_contributors_v2("empty".to_string()), Ok(vec![]));
}

#[test]
fn repositories_without_contributors_add_nothing() {
    let service = GithubService::new(
        |_owner: String, _page: u8, _per_page: u8| -> RepoPage {
            last_page(vec![repo("acme", "r1"), repo("acme", "quiet"), repo("acme", "r2")])
        },
        |_owner: String, name: String, _page: u8, _per_page: u8| -> ContributorPage {
            match name.as_str() {
                "r1" => last_page(vec![record("alice", 10)]),
                "r2" => last_page(vec![record("bob", 20)]),
                _ => last_page(vec![]),
            }
        },
    );
    assert_eq!(
        service.get_repos_with_contributors_v2("acme".to_string()),
        Ok(vec![entry("bob", 20), entry("alice", 10)])
    );
}

#[test]
fn acme_is_ranked_with_both_entries_of_alice() {
    let service = GithubService::new(acme_repos, acme_contributors);
    assert_eq!(
        service.get_repos_with_contributors_v2("acme".to_string()),
        Ok(vec![entry("bob", 20), entry("alice", 10), entry("alice", 5)])
    );
}

#[test]
fn get_repos_lists_all_pages_in_order() {
    let service = GithubService::new(
        |owner: String, page: u8, _per_page: u8| -> RepoPage {
            Ok(Page { items: vec![repo(&owner, &format!("r{}", page))], has_next: page < 2 })
        },
        acme_contributors,
    );
    assert_eq!(
        service.get_repos("acme".to_string()),
        Ok(vec![repo("acme", "r0"), repo("acme", "r1"), repo("acme", "r2")])
    );
}

#[test]
fn get_repos_fails_with_the_transport_error_as_it_came() {
    let service = GithubService::new(
        |_owner: String, _page: u8, _per_page: u8| -> RepoPage { Err(failure("502")) },
        acme_contributors,
    );
    assert_eq!(service.get_repos("acme".to_string()), Err(failure("502")));
}

#[test]
fn get_repo_contributors_lists_all_pages_in_order() {
    let asked: RefCell<Vec<(String, String, u8)>> = RefCell::new(Vec::new());
    let service = GithubService::new(
        acme_repos,
        |owner: String, name: String, page: u8, _per_page: u8| -> ContributorPage {
            asked.borrow_mut().push((owner, name, page));
            Ok(Page { items: vec![record("u", page as u32), record("v", 7)], has_next: page < 1 })
        },
    );
    assert_eq!(
        service.get_repo_contributors("acme".to_string(), "r1".to_string()),
        Ok(vec![record("u", 0), record("v", 7), record("u", 1), record("v", 7)])
    );
    assert_eq!(
        *asked.borrow(),
        vec![
            ("acme".to_string(), "r1".to_string(), 0),
            ("acme".to_string(), "r1".to_string(), 1),
        ]
    );
}

#[test]
fn get_repo_contributors_fails_with_the_transport_error_as_it_came() {
    let service = GithubService::new(
        acme_repos,
        |_owner: String, _name: String, page: u8, _per_page: u8| -> ContributorPage {
            if page == 0 {
                Ok(Page { items: vec![record("u", 1)], has_next: true })
            } else {
                Err(failure("timeout"))
            }
        },
    );
    assert_eq!(
        service.get_repo_contributors("acme".to_string(), "r1".to_string()),
        Err(failure("timeout"))
    );
}

#[test]
fn list_repositories_gives_the_references() {
    let service = GithubService::new(acme_repos, acme_contributors);
    assert_eq!(
        service.list_repositories("acme".to_string()),
        Ok(vec![
            RepositoryRef { owner: "acme".to_string(), name: "r1".to_string() },
            RepositoryRef { owner: "acme".to_string(), name: "r2".to_string() },
        ])
    );
}

#[test]
fn list_repositories_names_the_listing_that_failed() {
    let service = GithubService::new(
        |_owner: String, _page: u8, _per_page: u8| -> RepoPage { Err(failure("403")) },
        acme_contributors,
    );
    assert_eq!(
        service.list_repositories("acme".to_string()),
        Err(FetchError {
            owner: "acme".to_string(),
            cause: failure("403"),
        })
    );
}

#[test]
fn failed_repository_listing_fails_the_aggregation_before_any_contributor_listing() {
    let contributor_requests: RefCell<u32> = RefCell::new(0);
    let service = GithubService::new(
        |_owner: String, page: u8, _per_page: u8| -> RepoPage {
            if page < 2 {
                Ok(Page { items: vec![repo("acme", &format!("r{}", page))], has_next: true })
            } else {
                Err(failure("connection reset"))
            }
        },
        |_owner: String, _name: String, _page: u8, _per_page: u8| -> ContributorPage {
            *contributor_requests.borrow_mut() += 1;
            last_page(vec![record("alice", 10)])
        },
    );
    let result = service.get_repos_with_contributors_v2("acme".to_string());
    let error = result.unwrap_err();
    assert_eq!(
        error,
        AggregationError::RepositoryListing(FetchError {
            owner: "acme".to_string(),
            cause: failure("connection reset"),
        })
    );
    assert_eq!(error.message(), "Unable to fetch acme repositories: connection reset");
    assert_eq!(*contributor_requests.borrow(), 0);
}

#[test]
fn one_failed_contributor_listing_fails_the_whole_aggregation() {
    let service = GithubService::new(
        |_owner: String, _page: u8, _per_page: u8| -> RepoPage {
            last_page((0..10).map(|k| repo("acme", &format!("r{}", k))).collect())
        },
        |_owner: String, name: String, _page: u8, _per_page: u8| -> ContributorPage {
            if name == "r6" {
                Err(failure("rate limited"))
            } else {
                last_page(vec![record("alice", 10)])
            }
        },
    );
    let error = service.get_repos_with_contributors_v2("acme".to_string()).unwrap_err();
    assert_eq!(error, AggregationError::ContributorListing(failure("rate limited")));
    assert_eq!(error.message(), "rate limited");
}

#[test]
fn contributor_listing_that_fails_on_a_later_page_fails_the_aggregation() {
    let service = GithubService::new(
        acme_repos,
        |_owner: String, name: String, page: u8, _per_page: u8| -> ContributorPage {
            if name == "r2" && page == 1 {
                Err(failure("gone"))
            } else {
                Ok(Page { items: vec![record("alice", 10)], has_next: name == "r2" })
            }
        },
    );
    assert_eq!(
        service.get_repos_with_contributors_v2("acme".to_string()),
        Err(AggregationError::ContributorListing(failure("gone")))
    );
}

#[test]
fn aggregation_stops_at_the_first_failed_contributor_listing() {
    let asked: RefCell<Vec<String>> = RefCell::new(Vec::new());
    let service = GithubService::new(
        |_owner: String, _page: u8, _per_page: u8| -> RepoPage {
            last_page(vec![repo("acme", "r1"), repo("acme", "r2"), repo("acme", "r3")])
        },
        |_owner: String, name: String, _page: u8, _per_page: u8| -> ContributorPage {
            asked.borrow_mut().push(name.clone());
            if name == "r2" {
                Err(failure("first"))
            } else if name == "r3" {
                Err(failure("second"))
            } else {
                last_page(vec![record("alice", 10)])
            }
        },
    );
    assert_eq!(
        service.get_repos_with_contributors_v2("acme".to_string()),
        Err(AggregationError::ContributorListing(failure("first")))
    );
    assert_eq!(*asked.borrow(), vec!["r1".to_string(), "r2".to_string()]);
}

#[test]
fn contributors_are_listed_by_the_owner_of_each_repository() {
    let asked: RefCell<Vec<(String, String)>> = RefCell::new(Vec::new());
    let service = GithubService::new(
        |_owner: String, _page: u8, _per_page: u8| -> RepoPage {
            last_page(vec![repo("acme", "r1"), repo("partner", "shared")])
        },
        |owner: String, name: String, _page: u8, _per_page: u8| -> ContributorPage {
            asked.borrow_mut().push((owner, name));
            last_page(vec![])
        },
    );
    assert_eq!(service.get_repos_with_contributors_v2("acme".to_string()), Ok(vec![]));
    assert_eq!(
        *asked.borrow(),
        vec![
            ("acme".to_string(), "r1".to_string()),
            ("partner".to_string(), "shared".to_string()),
        ]
    );
}

#[test]
fn aggregation_over_several_pages_ranks_all_records() {
    let service = GithubService::new(
        |_owner: String, page: u8, _per_page: u8| -> RepoPage {
            Ok(Page { items: vec![repo("acme", &format!("r{}", page))], has_next: page < 2 })
        },
        |_owner: String, name: String, page: u8, _per_page: u8| -> ContributorPage {
            let base = match name.as_str() {
                "r0" => 10,
                "r1" => 20,
                _ => 30,
            };
            Ok(Page {
                items: vec![record(&format!("{}-{}", name, page), base + page as u32)],
                has_next: page < 1,
            })
        },
    );
    assert_eq!(
        service.get_repos_with_contributors_v2("acme".to_string()),
        Ok(vec![
            entry("r2-1", 31),
            entry("r2-0", 30),
            entry("r1-1", 21),
            entry("r1-0", 20),
            entry("r0-1", 11),
            entry("r0-0", 10),
        ])
    );
}

#[test]
fn ranking_is_answered_with_status_200_and_no_error() {
    let reply = contributors_reply(Ok(vec![entry("bob", 20), entry("alice", 10)]));
    assert_eq!(
        reply,
        Reply {
            status: 200,
            result: Some(vec![entry("bob", 20), entry("alice", 10)]),
            error: String::new(),
        }
    );
}

#[test]
fn failure_is_answered_with_status_418_and_the_message() {
    let reply = contributors_reply(Err(AggregationError::RepositoryListing(FetchError {
        owner: "acme".to_string(),
        cause: failure("not found"),
    })));
    assert_eq!(
        reply,
        Reply {
            status: 418,
            result: None,
            error: "Unable to fetch acme repositories: not found".to_string(),
        }
    );
    let reply = contributors_reply(Err(AggregationError::ContributorListing(failure("timeout"))));
    assert_eq!(reply, Reply { status: 418, result: None, error: "timeout".to_string() });
}

#[test]
fn fetch_error_names_owner_and_cause() {
    let error = FetchError { owner: "acme".to_string(), cause: failure("500") };
    assert_eq!(error.context(), "Unable to fetch acme repositories");
    assert_eq!(error.message(), "Unable to fetch acme repositories: 500");
}

#[test]
fn repository_with_a_full_page_and_an_empty_last_page_gives_its_hundred_contributors() {
    let service = GithubService::new(
        |_owner: String, _page: u8, _per_page: u8| -> RepoPage {
            last_page(vec![repo("acme", "big")])
        },
        |_owner: String, _name: String, page: u8, per_page: u8| -> ContributorPage {
            if page == 0 {
                Ok(Page {
                    items: (0..per_page as u32).map(|k| record(&format!("u{}", k), k)).collect(),
                    has_next: true,
                })
            } else {
                last_page(vec![])
            }
        },
    );
    let records =
        service.get_repo_contributors("acme".to_string(), "big".to_string()).unwrap();
    assert_eq!(records.len(), 100);
    let expected: Vec<ContributorRecord> =
        (0..100).map(|k| record(&format!("u{}", k), k)).collect();
    assert_eq!(records, expected);
    let ranking = service.get_repos_with_contributors_v2("acme".to_string()).unwrap();
    assert_eq!(ranking.len(), 100);
    assert_eq!(ranking[0], entry("u99", 99));
    assert_eq!(ranking[99], entry("u0", 0));
}

#[test]
fn located_repositories_are_their_references() {
    let listed = Ok(vec![repo("acme", "r1"), repo("acme", "r2")]);
    assert_eq!(
        repositories_located(&"acme".to_string(), listed),
        Ok(vec![
            RepositoryRef { owner: "acme".to_string(), name: "r1".to_string() },
            RepositoryRef { owner: "acme".to_string(), name: "r2".to_string() },
        ])
    );
}

#[test]
fn failed_repository_listing_is_named() {
    assert_eq!(
        repositories_located(&"acme".to_string(), Err(failure("401"))),
        Err(FetchError {
            owner: "acme".to_string(),
            cause: failure("401"),
        })
    );
}

#[test]
fn joined_contributor_listings_are_ranked() {
    let joined = Ok(vec![vec![record("alice", 10)], vec![record("bob", 20), record("alice", 5)]]);
    assert_eq!(
        contributors_ranked(joined),
        Ok(vec![entry("bob", 20), entry("alice", 10), entry("alice", 5)])
    );
}

#[test]
fn failed_contributor_listing_is_passed_on_as_it_came() {
    assert_eq!(
        contributors_ranked(Err(failure("timeout"))),
        Err(AggregationError::ContributorListing(failure("timeout")))
    );
}
