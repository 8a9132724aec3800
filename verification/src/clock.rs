//! The one clock read the engine makes: a timestamp for output records.

use vstd::prelude::*;

verus! {

/// Relies on chrono's `Utc::now` and `DateTime::to_rfc3339`: the current
/// time, formatted as an RFC 3339 timestamp. Nothing is promised of the
/// result, since it depends on the clock.
#[verifier::external_body]
pub fn current_timestamp() -> String {
    chrono::Utc::now().to_rfc3339()
}

} // verus!
