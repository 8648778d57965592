use vstd::prelude::*;

use chrono::Timelike;

verus! {

pub const NANOS_PER_HOUR: u64 = 3_600_000_000_000;

pub const NANOS_PER_DAY: u64 = 86_400_000_000_000;

/// The time of day `secs` seconds and `nanos` nanoseconds after midnight, in
/// nanoseconds. Nanoseconds past 999999999 (a leap second) count as the last
/// instant of their second, so that the time compares with whole hours as a
/// time of day does.
pub open spec fn time_of_day(secs: u32, nanos: u32) -> int {
    secs * 1_000_000_000 + if nanos < 1_000_000_000 {
        nanos as int
    } else {
        999_999_999
    }
}

/// Whether a time of day lies strictly inside the night from `start_hour` to
/// `end_hour`. A night that ends after it starts is the time between the two
/// hours; one that ends before it starts runs across midnight and holds
/// before the end hour and after the start hour; one that ends when it starts
/// holds from midnight until that hour.
pub open spec fn spec_is_night(start_hour: u32, end_hour: u32, secs: u32, nanos: u32) -> bool {
    let s = start_hour * NANOS_PER_HOUR;
    let e = end_hour * NANOS_PER_HOUR;
    let c = time_of_day(secs, nanos);
    if s < e {
        s < c && c < e
    } else if s > e {
        c < e || c > s
    } else {
        c < e
    }
}

/// Relies on chrono's `Local::now`, `Timelike::num_seconds_from_midnight`
/// and `Timelike::nanosecond`: the local time of day as whole seconds since
/// midnight (below 86400) and nanoseconds (up to 1999999999 in a leap second).
#[verifier::external_body]
fn local_time_of_day() -> (r: (u32, u32))
    ensures
        r.0 < 86400,
        r.1 < 2_000_000_000,
{
    let now = chrono::Local::now();
    (now.num_seconds_from_midnight(), now.nanosecond())
}

/// Decides `spec_is_night` for a given time of day.
pub fn is_night_at(start_hour: u32, end_hour: u32, secs: u32, nanos: u32) -> (r: bool)
    requires
        start_hour < 24,
        end_hour < 24,
        secs < 86400,
        nanos < 2_000_000_000,
    ensures
        r == spec_is_night(start_hour, end_hour, secs, nanos),
{
    let s: i64 = start_hour as i64 * NANOS_PER_HOUR as i64;
    let e: i64 = end_hour as i64 * NANOS_PER_HOUR as i64;
    let frac: i64 = if nanos < 1_000_000_000 {
        nanos as i64
    } else {
        999_999_999
    };
    let c: i64 = secs as i64 * 1_000_000_000 + frac;
    let start_at: i64 = if c < e && s >= e {
        s - NANOS_PER_DAY as i64
    } else {
        s
    };
    let end_at: i64 = if s > e && c >= e {
        e + NANOS_PER_DAY as i64
    } else {
        e
    };
    start_at < c && c < end_at
}

/// Whether it is night now, local time, for a night from `start_night` to
/// `end_night` o'clock.
pub fn check_night(start_night: u32, end_night: u32) -> (r: bool)
    requires
        start_night < 24,
        end_night < 24,
    ensures
        exists|secs: u32, nanos: u32|
            secs < 86400 && nanos < 2_000_000_000 && r == spec_is_night(
                start_night,
                end_night,
                secs,
                nanos,
            ),
{
    let (secs, nanos) = local_time_of_day();
    is_night_at(start_night, end_night, secs, nanos)
}

} // verus!
