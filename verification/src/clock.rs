//! Wall-clock milliseconds since the Unix epoch, as the stores stamp lease
//! expiries and audit columns.
use vstd::prelude::*;

verus! {

/// `UNIX_EPOCH.elapsed()`: the time from the epoch to the system clock's
/// now, in whole milliseconds; `None` when the clock reads before the epoch.
/// The value depends on the machine's clock, so nothing is stated of it.
#[verifier::external_body]
fn millis_since_epoch() -> (r: Option<u128>)
{
    match std::time::UNIX_EPOCH.elapsed() {
        Ok(d) => Some(d.as_millis()),
        Err(_) => None,
    }
}

/// Convert an elapsed-milliseconds reading to the `i64` the stores store:
/// the reading cast to `i64`, or `0` when the clock read before the epoch.
pub fn millis_to_unix_ms(reading: Option<u128>) -> (r: i64)
    ensures
        r == match reading {
            Some(ms) => ms as i64,
            None => 0i64,
        },
{
    match reading {
        Some(ms) => ms as i64,
        None => 0,
    }
}

/// Unix milliseconds now (`0` when the clock reads before the epoch).
pub fn now_unix_ms() -> (r: i64)
{
    millis_to_unix_ms(millis_since_epoch())
}

} // verus!
