use vstd::prelude::*;

verus! {

/// Relies on std::time::SystemTime::now, measured against the Unix epoch:
/// the current time in whole seconds. A clock set before the epoch is
/// reported as the epoch itself — the error arm is handled, so the read
/// never panics, whatever the host clock holds. Nothing more can be promised
/// of a clock; callers state what holds for every value.
#[verifier::external_body]
fn unix_now() -> (r: u64) {
    match std::time::SystemTime::now().duration_since(std::time::UNIX_EPOCH) {
        Ok(elapsed) => elapsed.as_secs(),
        Err(_) => 0,
    }
}

/// The current time as seconds since the Unix epoch.
pub fn now_unix_seconds() -> (r: u64) {
    unix_now()
}

} // verus!
