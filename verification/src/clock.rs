//! The host clock, read as plain milliseconds.

use vstd::prelude::*;

verus! {

/// Relies on `chrono::Utc::now` and `timestamp_millis`: the current time in
/// milliseconds since the Unix epoch. The value depends on the clock, so
/// nothing is assumed of it; callers state what holds whatever came back.
#[verifier::external_body]
pub(crate) fn now_millis() -> i64 {
    chrono::Utc::now().timestamp_millis()
}

} // verus!
