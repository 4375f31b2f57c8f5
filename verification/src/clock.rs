//! The current time.

use vstd::prelude::*;

use crate::types::DateTime;

verus! {

/// Calls `chrono::Utc::now` and hands the instant out as the seconds since
/// the epoch (`DateTime::timestamp`) and the nanoseconds within the second
/// (`DateTime::timestamp_subsec_nanos`). Nothing is claimed of the reading.
/// `Utc::now` panics where the system clock is set before the epoch.
#[verifier::external_body]
pub(crate) fn now() -> (t: DateTime) {
    let t = chrono::Utc::now();
    DateTime { secs: t.timestamp(), nanos: t.timestamp_subsec_nanos() }
}

} // verus!
