use vstd::prelude::*;

verus! {

/// Relies on std::time: `SystemTime::now`, `duration_since(UNIX_EPOCH)` and
/// `Duration::as_secs`, read as one chain into a plain number. Returns the
/// seconds since the Unix epoch, or 0 for a clock set before it —
/// `duration_since` reports the pre-epoch case as an error rather than
/// panicking, so the call is total. Nothing is promised of the value: it
/// depends on the machine's clock.
#[verifier::external_body]
fn now_timestamp() -> u64 {
    match std::time::SystemTime::now().duration_since(std::time::UNIX_EPOCH) {
        Ok(elapsed) => elapsed.as_secs(),
        Err(_) => 0,
    }
}

/// The current wall-clock time as Unix seconds (0 for a clock set before
/// the epoch). An embedding system feeds this to `activate` and to the
/// scheduler's ticks; the library's own logic never reads the clock.
pub fn current_unix_seconds() -> u64 {
    now_timestamp()
}

} // verus!
