//! Reading the wall clock. Both the input reader and the staleness
//! monitor take their notion of "now" from here.

use vstd::prelude::*;

verus! {

/// Relies on `std::time::SystemTime::now` and
/// `SystemTime::duration_since(UNIX_EPOCH)`: the wall-clock time, as whole
/// milliseconds since the Unix epoch, or `None` when the clock reads as
/// earlier than the epoch. The result depends on the wall clock, so
/// nothing more is promised of it; a caller that cannot go on without a
/// reading treats `None` as fatal.
#[verifier::external_body]
pub fn timestamp_ms() -> Option<u128> {
    match std::time::SystemTime::now().duration_since(std::time::UNIX_EPOCH) {
        Ok(elapsed) => Some(elapsed.as_millis()),
        Err(_) => None,
    }
}

} // verus!
