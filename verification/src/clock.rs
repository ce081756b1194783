//! Wall-clock readings. The decision and normalization functions all take
//! the current time as an argument, so their contracts hold for every
//! reading these return.

use vstd::prelude::*;

verus! {

/// Relies on chrono::Utc::now for the current time as seconds since the
/// epoch; nothing can be promised of the reading itself.
#[verifier::external_body]
pub fn now_timestamp() -> i64 {
    chrono::Utc::now().timestamp()
}

/// Relies on chrono's RFC 3339 formatting of chrono::Utc::now; nothing can
/// be promised of the reading itself.
#[verifier::external_body]
pub fn now_rfc3339() -> String {
    chrono::Utc::now().to_rfc3339()
}

} // verus!
