//! Points in time as `jiff` accepts them.
use vstd::prelude::*;

verus! {

/// Earliest second since the Unix epoch that `jiff::Timestamp` holds.
pub open spec fn min_second() -> int {
    -377705023201
}

/// Latest second since the Unix epoch that `jiff::Timestamp` holds.
pub open spec fn max_second() -> int {
    253402207200
}

/// Whether `seconds` since the Unix epoch is a point in time that `jiff`
/// holds.
pub open spec fn in_time_range(seconds: i64) -> bool {
    min_second() <= seconds <= max_second()
}

/// Calls `jiff::Timestamp::from_second`, reads the seconds back with
/// `as_second` and renders an error through `Display`. Claimed, from jiff's documentation and its bounds
/// (`UnixEpochSeconds`, which leave room for any offset of at most
/// 25:59:59): it fails exactly outside `[min_second, max_second]`, and
/// otherwise keeps the seconds. Not stated: the error's text.
#[verifier::external_body]
pub(crate) fn timestamp_from_second(seconds: i64) -> (r: Result<i64, String>)
    ensures
        r is Ok <==> in_time_range(seconds),
        r matches Ok(s) ==> s == seconds,
{
    jiff::Timestamp::from_second(seconds).map(|t| t.as_second()).map_err(|e| e.to_string())
}

/// The seconds of a commit time for a log entry: the time itself where
/// `jiff` holds it, the Unix epoch otherwise.
pub fn seconds_or_epoch(seconds: i64) -> (r: i64)
    ensures
        r == if in_time_range(seconds) { seconds } else { 0 },
{
    match timestamp_from_second(seconds) {
        Ok(s) => s,
        Err(_) => 0,
    }
}

} // verus!
