//! Coalescing the experiment requests that queued up while a job ran.

use vstd::prelude::*;

verus! {

/// The request to honor out of `current` and the `newer` ones that arrived
/// after it, in order of arrival: only the most recent one is kept.
pub fn coalesce_requests<T>(current: T, newer: Vec<T>) -> (honored: T)
    ensures
        honored == (if newer@.len() == 0 {
            current
        } else {
            newer@.last()
        }),
{
    let mut newer = newer;
    match newer.pop() {
        Some(latest) => latest,
        None => current,
    }
}

} // verus!
