//! The system clock, read as a signed count of nanoseconds since the Unix epoch.

use vstd::prelude::*;

verus! {

/// The most nanoseconds that a `Duration` holds: `u64::MAX` seconds and
/// 999,999,999 nanoseconds.
pub const MAX_DURATION_NANOS: u128 = 18_446_744_073_709_551_615 * 1_000_000_000 + 999_999_999;

/// Relies on `SystemTime::now` and `SystemTime::duration_since(UNIX_EPOCH)`:
/// the distance of the system clock from the Unix epoch in nanoseconds
/// (`Duration::as_nanos`), `Ok` at or after the epoch, `Err` before it. The
/// reading depends on the clock; only the range of a `Duration` is stated.
#[verifier::external_body]
fn read_system_clock() -> (r: Result<u128, u128>)
    ensures
        match r {
            Ok(n) => n <= MAX_DURATION_NANOS,
            Err(n) => n <= MAX_DURATION_NANOS,
        },
{
    match std::time::SystemTime::now().duration_since(std::time::UNIX_EPOCH) {
        Ok(d) => Ok(d.as_nanos()),
        Err(e) => Err(e.duration().as_nanos()),
    }
}

/// The current time in nanoseconds since the Unix epoch, negative before it.
pub fn now_nanos() -> (r: i128)
    ensures
        -(MAX_DURATION_NANOS as int) <= r <= MAX_DURATION_NANOS,
{
    match read_system_clock() {
        Ok(n) => n as i128,
        Err(n) => -(n as i128),
    }
}

} // verus!
