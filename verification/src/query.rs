//! The query handler: what a viewer gets after the fetch.

use vstd::prelude::*;
use crate::reading::Reading;

verus! {

/// How many readings a viewer is served at most.
pub const RECENT_LIMIT: usize = 100;

/// Turns the outcome of the fetch into the list that is served. The rows
/// that storage returned are served as they came; a failed fetch is served
/// as an empty list, so that the read path never answers with an error.
pub fn get_readings<E>(fetched: Result<Vec<Reading>, E>) -> (list: Vec<Reading>)
    ensures
        match fetched {
            Ok(rows) => list == rows,
            Err(_) => list@ == Seq::<Reading>::empty(),
        },
{
    match fetched {
        Ok(rows) => rows,
        Err(_) => Vec::new(),
    }
}

} // verus!
