use vstd::prelude::*;

verus! {

/// Milliseconds since the Unix epoch by the system clock (`SystemTime::now`),
/// or `None` when the clock reads before the epoch. Trusted, and nothing is
/// stated of the value: it is whatever the clock reads, and two calls may
/// give any two values.
#[verifier::external_body]
pub(crate) fn system_time_ms() -> Option<u64> {
    match std::time::SystemTime::now().duration_since(std::time::UNIX_EPOCH) {
        Ok(d) => Some(d.as_millis() as u64),
        Err(_) => None,
    }
}

/// Milliseconds since the Unix epoch by the system clock, 0 when the clock
/// reads before the epoch.
pub fn current_time_ms() -> u64 {
    match system_time_ms() {
        Some(t) => t,
        None => 0,
    }
}

} // verus!
