use vstd::prelude::*;

verus! {

/// Reads the system clock through `SystemTime::now` and returns the seconds
/// since the Unix epoch, or 0 when the clock is before the epoch. Nothing is
/// stated of the value: it depends on the time of the call.
#[verifier::external_body]
pub fn now_unix() -> u64 {
    match std::time::SystemTime::now().duration_since(std::time::UNIX_EPOCH) {
        Ok(d) => d.as_secs(),
        Err(_) => 0,
    }
}

} // verus!
