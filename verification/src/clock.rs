//! The clock.

use vstd::prelude::*;

verus! {

/// A time in seconds since 1970 that the clock can show: far enough from the ends
/// of the 64-bit range for the library's arithmetic on times.
pub open spec fn is_timestamp(t: i64) -> bool {
    0 <= t < 10_000_000_000_000
}

/// Whether `t` is a time that the clock can show.
pub fn valid_timestamp(t: i64) -> (r: bool)
    ensures
        r == is_timestamp(t),
{
    t >= 0 && t < 10_000_000_000_000
}

/// `chrono::Utc::now().timestamp()`: the seconds since 1970. chrono holds no date
/// after the year 262142 and takes no system time before 1970, so the result lies
/// between 0 and ten million million. Which time comes depends on the machine alone.
#[verifier::external_body]
fn utc_now() -> (t: i64)
    ensures
        is_timestamp(t),
{
    chrono::Utc::now().timestamp()
}

/// `std::time::UNIX_EPOCH.elapsed()`: the whole seconds since 1970 that the system's clock
/// shows, or the text of std's error where it shows a time before. Nothing is claimed of
/// them, since which of them comes depends on the machine alone.
#[verifier::external_body]
pub(crate) fn unix_time() -> (r: Result<u64, String>) {
    std::time::UNIX_EPOCH.elapsed().map(|d| d.as_secs()).map_err(|e| e.to_string())
}

/// The current time, in seconds since 1970, as the machine's clock shows it.
pub fn now() -> (t: i64)
    ensures
        is_timestamp(t),
{
    utc_now()
}

} // verus!
