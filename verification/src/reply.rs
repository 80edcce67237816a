//! What the service answers to a request for the contributors of an
//! organization.

use crate::errors::AggregationError;
use crate::ranking::GHContributorResult;
use vstd::prelude::*;

verus! {

/// The status of an answer that carries the ranking.
pub const STATUS_OK: u16 = 200;

/// The status of an answer that carries an error.
pub const STATUS_FAILED: u16 = 418;

/// An answer: a status, and either the ranking with an empty error text, or
/// no ranking and the text of the error.
#[derive(Debug, Clone, PartialEq, Eq)]
pub struct Reply {
    pub status: u16,
    pub result: Option<Vec<GHContributorResult>>,
    pub error: String,
}

/// The answer to give for the outcome of an aggregation. A ranking is
/// answered with status 200 and an empty error text; a failure, of whichever
/// listing, with status 418, no ranking and the words of the error.
pub fn contributors_reply(
    outcome: Result<Vec<GHContributorResult>, AggregationError>,
) -> (reply: Reply)
    ensures
        (match outcome {
            Ok(ranking) => {
                &&& reply.status == STATUS_OK
                &&& reply.result == Some(ranking)
                &&& reply.error@.len() == 0
            },
            Err(error) => {
                &&& reply.status == STATUS_FAILED
                &&& reply.result is None
                &&& reply.error@ == error.message_text()
            },
        }),
{
    match outcome {
        Ok(ranking) => Reply { status: STATUS_OK, result: Some(ranking), error: String::new() },
        Err(error) => Reply { status: STATUS_FAILED, result: None, error: error.message() },
    }
}

} // verus!
