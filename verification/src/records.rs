//! The plain records that the listings carry.

use crate::parallel::map_each;
use vstd::prelude::*;

verus! {

/// One repository as a listing page reports it. The owner may be absent in
/// what the transport delivers; a reference can only be taken of a repository
/// that has one.
#[derive(Debug, Clone, PartialEq, Eq)]
pub struct RepositoryDescriptor {
    pub owner_login: Option<String>,
    pub name: String,
}

/// Identifies one repository by the login of its owner and its name.
#[derive(Debug, Clone, PartialEq, Eq)]
pub struct RepositoryRef {
    pub owner: String,
    pub name: String,
}

/// One contributor of one repository: a login and how often it contributed.
#[derive(Debug, Clone, PartialEq, Eq)]
pub struct ContributorRecord {
    pub login: String,
    pub contributions: u32,
}

/// The failure of a single page fetch, as the transport describes it.
#[derive(Debug, Clone, PartialEq, Eq)]
pub struct TransportError {
    pub message: String,
}

/// The parameters of a page request: the owner whose repositories are
/// listed, the repository whose contributors are listed, and the page to
/// start from.
#[derive(Debug, Clone, PartialEq, Eq)]
pub struct OctocatParametersDto {
    pub owner: String,
    pub start_from_page: u8,
    pub repo_owner: String,
    pub repo_name: String,
}

impl Default for OctocatParametersDto {
    /// No names, and the first page.
    fn default() -> (parameters: Self)
        ensures
            parameters.owner@.len() == 0,
            parameters.start_from_page == 0,
            parameters.repo_owner@.len() == 0,
            parameters.repo_name@.len() == 0,
    {
        OctocatParametersDto {
            owner: String::new(),
            start_from_page: 0,
            repo_owner: String::new(),
            repo_name: String::new(),
        }
    }
}

impl RepositoryDescriptor {
    /// The owner is present.
    pub open spec fn has_owner(self) -> bool {
        self.owner_login is Some
    }

    /// The reference of a repository with an owner.
    pub open spec fn reference(self) -> RepositoryRef {
        RepositoryRef { owner: self.owner_login->0, name: self.name }
    }

    /// Turns the repository into its reference: the owner's login and the
    /// name.
    pub fn into_ref(self) -> (r: RepositoryRef)
        requires
            self.has_owner(),
        ensures
            r == self.reference(),
    {
        RepositoryRef { owner: self.owner_login.unwrap(), name: self.name }
    }
}

/// Every repository of `repos` has its owner.
pub open spec fn all_have_owners(repos: Seq<RepositoryDescriptor>) -> bool {
    forall|i: int| 0 <= i < repos.len() ==> (#[trigger] repos[i]).has_owner()
}

/// The references of `repos`, one for each repository, in their order.
pub open spec fn references(repos: Seq<RepositoryDescriptor>) -> Seq<RepositoryRef> {
    repos.map_values(|repo: RepositoryDescriptor| repo.reference())
}

/// Tells whether every repository of `repos` has its owner.
pub fn have_owners(repos: &Vec<RepositoryDescriptor>) -> (all: bool)
    ensures
        all == all_have_owners(repos@),
{
    let mut i: usize = 0;
    while i < repos.len()
        invariant
            i <= repos.len(),
            forall|j: int| 0 <= j < i ==> (#[trigger] repos@[j]).has_owner(),
        decreases repos.len() - i,
    {
        if repos[i].owner_login.is_none() {
            return false;
        }
        i += 1;
    }
    true
}

/// Takes the reference of each repository of `repos`, in their order.
pub fn repository_refs(repos: Vec<RepositoryDescriptor>) -> (refs: Vec<RepositoryRef>)
    requires
        all_have_owners(repos@),
    ensures
        refs@ == references(repos@),
{
    let refs = map_each(repos, RepositoryDescriptor::into_ref);
    refs
}

} // verus!
