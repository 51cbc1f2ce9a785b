//! The service's clock.

use vstd::prelude::*;

verus! {

/// `time::OffsetDateTime::now_utc().unix_timestamp()`: the system clock's reading, in
/// whole seconds since the Unix epoch. The number differs from call to call, so
/// nothing is claimed of it. The call returns for every date that `time` can
/// represent, which is what a working clock shows.
#[verifier::external_body]
fn unix_seconds() -> i64 {
    time::OffsetDateTime::now_utc().unix_timestamp()
}

/// The seconds since the Unix epoch, as records carry them. A clock set before
/// the epoch wraps around.
pub(crate) fn now_timestamp() -> u64 {
    timestamp_from(unix_seconds())
}

/// The timestamp that stands for a clock's reading: the reading itself from the
/// epoch on, and before the epoch the reading counted down from 2^64.
pub open spec fn timestamp_of(seconds: i64) -> u64 {
    if seconds >= 0 {
        seconds as u64
    } else {
        (seconds + 0x1_0000_0000_0000_0000) as u64
    }
}

/// Turns a clock's reading, in seconds since the Unix epoch, into the timestamp
/// that records carry.
pub fn timestamp_from(seconds: i64) -> (timestamp: u64)
    ensures
        timestamp == timestamp_of(seconds),
{
    assert(seconds < 0 ==> (seconds as u64) as i128 == (seconds as i128)
        + 0x1_0000_0000_0000_0000i128) by (bit_vector);
    seconds as u64
}

} // verus!
