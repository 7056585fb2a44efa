//! The wall clock.

use std::time::{SystemTime, UNIX_EPOCH};
use vstd::prelude::*;

verus! {

/// `SystemTime::now`, as whole seconds since the Unix epoch; zero where the
/// clock stands before the epoch. Nothing is promised of the value: two
/// calls may differ.
#[verifier::external_body]
pub(crate) fn unix_time_secs() -> (secs: u64) {
    match SystemTime::now().duration_since(UNIX_EPOCH) {
        Ok(elapsed) => elapsed.as_secs(),
        Err(_) => 0,
    }
}

} // verus!
