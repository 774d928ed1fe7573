//! The wall clock, read as whole seconds since the Unix epoch.

use vstd::prelude::*;

verus! {

/// Relies on std::time::SystemTime::now and SystemTime::duration_since: the
/// seconds since the Unix epoch, `None` when the system clock reads earlier
/// than the epoch. The result depends on the clock, so nothing is promised of
/// its value; callers take it as an argument and are verified for every value.
#[verifier::external_body]
fn system_clock_seconds() -> Option<u64> {
    match std::time::SystemTime::now().duration_since(std::time::UNIX_EPOCH) {
        Ok(d) => Some(d.as_secs()),
        Err(_) => None,
    }
}

/// Read the wall clock as whole seconds since the Unix epoch; `None` when the
/// system clock reads earlier than the epoch. The value depends on the clock
/// alone, so no more is promised of it; every caller of this library takes
/// the reading as an argument and is verified for every value of it.
pub fn get_unix_timestamp() -> Option<u64> {
    system_clock_seconds()
}

} // verus!
