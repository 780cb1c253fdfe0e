//! The wall clock, as the rest of the library reads it.
use vstd::prelude::*;

verus! {

/// Relies on chrono::Utc::now and DateTime::timestamp: the system clock in
/// whole seconds since the Unix epoch. `Utc::now` measures the time elapsed
/// since the epoch (it panics on a clock set before it), so the reading is
/// never negative; nothing else is known of it.
#[verifier::external_body]
fn system_seconds() -> (r: i64)
    ensures
        r >= 0,
{
    chrono::Utc::now().timestamp()
}

/// Relies on chrono::Utc::now and DateTime::to_rfc3339: the system clock as
/// RFC 3339 text. Nothing is known of the reading.
#[verifier::external_body]
pub(crate) fn system_time_rfc3339() -> String {
    chrono::Utc::now().to_rfc3339()
}

/// The current instant in seconds since the Unix epoch.
pub fn current_time() -> (r: u64)
    ensures
        r <= i64::MAX,
{
    system_seconds() as u64
}

} // verus!
