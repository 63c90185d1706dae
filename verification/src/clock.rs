//! The wall clock.

use vstd::prelude::*;

verus! {

/// Reads the wall clock through `chrono::Utc::now` and converts the instant
/// with `DateTime::timestamp_micros`. Nothing is claimed of the value: two
/// readings need not even be ordered. `Utc::now` itself gives up on a machine
/// whose clock stands before the Unix epoch.
#[verifier::external_body]
pub(crate) fn utc_now_micros() -> (now: i64) {
    chrono::Utc::now().timestamp_micros()
}

} // verus!
