//! Ranks the contributors of all repositories of an organization.
//!
//! The hosting provider lists repositories and contributors page by page.
//! `page` drains such a listing into one sequence, `service` lists the
//! repositories of an organization and the contributors of each, and
//! `ranking` merges the contributor records of all repositories and orders
//! them by descending contribution count. Contribution counts are never
//! summed: a login that contributed to several repositories stands in the
//! ranking once for each of them.
//!
//! The transport itself is not part of this library. The service takes it as
//! two operations, one for each kind of page. A caller that cannot hand its
//! transport over in this form drives a listing with `Listing::absorb` and
//! concludes with `repositories_located` and `contributors_ranked`.
//!
//! Every function carries its contract. The three functions of `parallel`,
//! which hand work to rayon, are believed; everything else is proved.
//! `ranking_laws` and `service_laws` hold what follows from the contracts.

pub mod errors;
pub mod page;
pub mod parallel;
pub mod ranking;
pub mod ranking_laws;
pub mod records;
pub mod reply;
pub mod service;
pub mod service_laws;

pub use errors::{AggregationError, FetchError};
pub use page::{fetch_all, Listing, Page, Progress};
pub use ranking::{rank_contributors, GHContributorResult};
pub use records::{
    ContributorRecord, OctocatParametersDto, RepositoryDescriptor, RepositoryRef, TransportError,
};
pub use reply::{contributors_reply, Reply};
pub use service::{contributors_ranked, repositories_located, GithubService, PER_PAGE_SIZE};
