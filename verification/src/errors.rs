//! The failures of a listing and of the aggregation.

use crate::records::TransportError;
use vstd::prelude::*;
use vstd::string::StringExecFns;

verus! {

/// A transport error that ended the listing of the repositories of `owner`.
#[derive(Debug, Clone, PartialEq, Eq)]
pub struct FetchError {
    pub owner: String,
    pub cause: TransportError,
}

/// Why an aggregation failed: the repository listing did, or the contributor
/// listing of one repository.
#[derive(Debug, Clone, PartialEq, Eq)]
pub enum AggregationError {
    /// The listing of the organization's repositories failed.
    RepositoryListing(FetchError),
    /// The listing of the contributors of a repository failed with this
    /// transport error.
    ContributorListing(TransportError),
}

impl FetchError {
    /// The text of `context`.
    pub open spec fn context_text(self) -> Seq<char> {
        "Unable to fetch "@ + self.owner@ + " repositories"@
    }

    /// The text of `message`: the context, a colon and the cause.
    pub open spec fn message_text(self) -> Seq<char> {
        self.context_text() + ": "@ + self.cause.message@
    }

    /// The words that name the listing that failed.
    pub fn context(&self) -> (text: String)
        ensures
            text@ == self.context_text(),
    {
        let mut text = String::from_str("Unable to fetch ");
        text.append(self.owner.as_str());
        text.append(" repositories");
        text
    }

    /// The words for a reader: what could not be listed, and why.
    pub fn message(&self) -> (text: String)
        ensures
            text@ == self.message_text(),
    {
        let mut text = self.context();
        text.append(": ");
        text.append(self.cause.message.as_str());
        text
    }
}

impl AggregationError {
    /// The text of `message`.
    pub open spec fn message_text(self) -> Seq<char> {
        match self {
            AggregationError::RepositoryListing(error) => error.message_text(),
            AggregationError::ContributorListing(cause) => cause.message@,
        }
    }

    /// The words for a reader. A failed repository listing is named together
    /// with its cause; a failed contributor listing speaks as its transport
    /// error does.
    pub fn message(&self) -> (text: String)
        ensures
            text@ == self.message_text(),
    {
        match self {
            AggregationError::RepositoryListing(error) => error.message(),
            AggregationError::ContributorListing(cause) => cause.message.clone(),
        }
    }
}

} // verus!
