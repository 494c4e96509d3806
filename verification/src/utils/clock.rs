//! The system clock, as the library reads it for jitter and chance rolls.
use vstd::prelude::*;

verus! {

/// `SystemTime::now().duration_since(UNIX_EPOCH)` and `Duration::subsec_nanos`:
/// the nanoseconds within the current second of the system clock, or 0 when
/// the clock reads before the Unix epoch. The standard library documents the
/// value as below one billion; nothing else is claimed of it.
#[verifier::external_body]
pub(crate) fn clock_subsec_nanos() -> (r: u32)
    ensures
        r < 1_000_000_000,
{
    match std::time::SystemTime::now().duration_since(std::time::UNIX_EPOCH) {
        Ok(d) => d.subsec_nanos(),
        Err(_) => 0,
    }
}

} // verus!
