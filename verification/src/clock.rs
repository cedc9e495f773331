//! The current time, in milliseconds since the Unix epoch.

use vstd::prelude::*;

verus! {

/// Calls `bson::DateTime::now` and reads its milliseconds. The result is
/// whatever the system clock says; the contract claims nothing of it.
#[verifier::external_body]
pub(crate) fn clock_millis() -> (res: i64) {
    bson::DateTime::now().timestamp_millis()
}

} // verus!
