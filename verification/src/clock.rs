use vstd::prelude::*;
use std::time::SystemTime;

verus! {

#[verifier::external_type_specification]
#[verifier::external_body]
pub struct ExSystemTime(std::time::SystemTime);

/// `SystemTime::now` reads the system clock. Nothing is claimed of the reading: it depends on
/// the time of the call.
pub assume_specification[ std::time::SystemTime::now ]() -> SystemTime;

/// How long after the Unix epoch `t` is, as whole seconds and the nanoseconds past them, from
/// `SystemTime::duration_since(UNIX_EPOCH)`; `None` where `t` is before the epoch (the error
/// case of `duration_since`). The reading is not named, since it depends on the clock; the
/// one fact claimed is the documented range of `Duration::subsec_nanos`, below one billion.
#[verifier::external_body]
fn duration_since_epoch(t: &SystemTime) -> (r: Option<(u64, u32)>)
    ensures
        r matches Some((secs, nanos)) ==> nanos < 1_000_000_000,
{
    t.duration_since(std::time::UNIX_EPOCH).ok().map(|d| (d.as_secs(), d.subsec_nanos()))
}

/// `chrono::DateTime::from_timestamp(secs, nanos)`, then `DateTime::timestamp_millis` of the
/// result. Claimed, as chrono's source computes it: where a date comes out, its millisecond
/// timestamp is `secs * 1000 + nanos / 1_000_000`; and a date comes out for every time from
/// the epoch to the end of the year 9999 with `nanos` below one billion. Outside that range
/// the source gives `None` past its date limits and for ill-formed nanoseconds, which is not
/// stated here.
#[verifier::external_body]
fn timestamp_millis_at(secs: i64, nanos: u32) -> (r: Option<i64>)
    ensures
        r matches Some(ms) ==> ms == secs * 1000 + nanos / 1_000_000,
        0 <= secs <= 253_402_300_799 && nanos < 1_000_000_000 ==> r is Some,
{
    chrono::DateTime::from_timestamp(secs, nanos).map(|dt| dt.timestamp_millis())
}

/// The latest time, in seconds after the Unix epoch, that chrono is known to represent here:
/// the last second of the year 9999.
pub const LAST_SECOND_OF_9999: u64 = 253_402_300_799;

/// The millisecond timestamp of the instant `secs` seconds and `nanos` nanoseconds after the
/// Unix epoch, as chrono gives it: exactly `secs * 1000 + nanos / 1_000_000` up to the end of
/// the year 9999; past that, that value or `None`, as chrono's date range decides.
pub fn epoch_millis(secs: u64, nanos: u32) -> (r: Option<i64>)
    requires
        nanos < 1_000_000_000,
    ensures
        r matches Some(ms) ==> ms == secs * 1000 + nanos / 1_000_000,
        secs <= LAST_SECOND_OF_9999 ==> r == Some((secs * 1000 + nanos / 1_000_000) as i64),
{
    if secs > 9_223_372_036_854_775_807u64 {
        None
    } else {
        timestamp_millis_at(secs as i64, nanos)
    }
}

/// Milliseconds since the Unix epoch now, by the wall clock in UTC; `None` where the clock
/// reads before the epoch or past the dates that chrono represents.
pub fn utc_now_millis() -> (r: Option<i64>)
    ensures
        r matches Some(ms) ==> ms >= 0,
{
    let now = SystemTime::now();
    match duration_since_epoch(&now) {
        Some((secs, nanos)) => epoch_millis(secs, nanos),
        None => None,
    }
}

} // verus!
