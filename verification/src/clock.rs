//! The time at which an event is stamped.

use vstd::prelude::*;
use crate::conversation::Timestamp;

verus! {

/// Calls `chrono::Utc::now` and takes the result apart with
/// `DateTime::timestamp` and `DateTime::timestamp_subsec_nanos`. The result
/// is the time of the call, so nothing is claimed of it and two calls
/// differ. chrono panics where the system's clock stands before 1970.
#[verifier::external_body]
pub(crate) fn current_time() -> (now: Timestamp) {
    let now = chrono::Utc::now();
    Timestamp { secs: now.timestamp(), nanos: now.timestamp_subsec_nanos() }
}

} // verus!
