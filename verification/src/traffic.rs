//! The traffic feed.
//!
//! The body of the feed is read against its schema outside this crate; what
//! came of that is taken in here.

use vstd::prelude::*;
use crate::error::{FetchError, ParseFault};
use crate::model::TrafficRecord;

verus! {

/// Takes in what was read from a body of the traffic feed: the flights, one
/// for each entry of the feed, or nothing where the body is not of the
/// schema, which fails the feed whole.
pub fn traffic_outcome(read: Option<Vec<TrafficRecord>>) -> (r: Result<
    Vec<TrafficRecord>,
    FetchError,
>)
    ensures
        match read {
            Some(flights) => r == Ok::<Vec<TrafficRecord>, FetchError>(flights),
            None => r == Err::<Vec<TrafficRecord>, FetchError>(
                FetchError::Parse(ParseFault::Schema),
            ),
        },
{
    match read {
        Some(flights) => Ok(flights),
        None => Err(FetchError::Parse(ParseFault::Schema)),
    }
}

} // verus!
