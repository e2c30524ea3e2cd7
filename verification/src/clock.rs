//! The wall clock, as the library reads it.
use vstd::prelude::*;

verus! {

/// Seconds since the Unix epoch, from `SystemTime::now()`; 0 where the clock
/// reads earlier than the epoch (`chrono::Local::now` would panic there).
/// Nothing is promised of the value: it is the time of the call.
#[verifier::external_body]
pub(crate) fn local_timestamp() -> (r: i64) {
    std::time::SystemTime::now()
        .duration_since(std::time::UNIX_EPOCH)
        .map(|d| d.as_secs() as i64)
        .unwrap_or(0)
}

} // verus!
