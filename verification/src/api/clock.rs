//! The boundary to `chrono`: the wall clock.
//!
//! Nothing in this file is proved, and nothing is promised of the time that
//! comes back.

use vstd::prelude::*;

verus! {

/// `chrono::Utc::now().timestamp()`: the seconds since the Unix epoch, as
/// the machine's clock has them at the moment of the call.
#[verifier::external_body]
pub(crate) fn unix_seconds() -> i64 {
    chrono::Utc::now().timestamp()
}

} // verus!
