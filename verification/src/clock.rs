use vstd::prelude::*;

use crate::Timestamp;

verus! {

/// Relies on chrono's `Utc::now`: the current wall-clock time in whole seconds
/// since the Unix epoch. The value depends on the clock, so nothing is
/// promised of it; every caller must hold for every outcome.
#[verifier::external_body]
pub(crate) fn now_utc_seconds() -> Timestamp {
    chrono::Utc::now().timestamp()
}

} // verus!
