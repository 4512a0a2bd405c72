//! Time units, percentages and the checks on a plan's price and duration.
use vstd::prelude::*;

verus! {

/// Number of seconds in one day.
pub const SECONDS_PER_DAY: u64 = 86400;

/// The longest duration a plan may have: ten years of 365 days.
pub const MAX_DURATION_DAYS: u32 = 3650;

/// The quotient of `a` by a positive `b`, rounded toward zero.
pub open spec fn quotient_toward_zero(a: int, b: int) -> int {
    if a >= 0 {
        a / b
    } else {
        -((-a) / b)
    }
}

/// Converts a whole number of days to seconds.
pub fn days_to_seconds(days: u32) -> (seconds: u64)
    ensures
        seconds == days * 86400,
{
    let wide: u64 = days as u64;
    wide * SECONDS_PER_DAY
}

/// The whole days in a number of seconds, reduced modulo 2^32 where they
/// do not fit in 32 bits.
pub fn seconds_to_days(seconds: u64) -> (days: u32)
    ensures
        days == (seconds / 86400) % 0x1_0000_0000,
{
    let whole: u64 = seconds / SECONDS_PER_DAY;
    let low: u64 = whole % 0x1_0000_0000;
    low as u32
}

/// Whether `timestamp` lies before the time `now`.
pub fn is_past(now: u64, timestamp: u64) -> (past: bool)
    ensures
        past == (now > timestamp),
{
    now > timestamp
}

/// Whether `timestamp` lies after the time `now`.
pub fn is_future(now: u64, timestamp: u64) -> (future: bool)
    ensures
        future == (now < timestamp),
{
    now < timestamp
}

/// `percentage` hundredths of `value`, rounded toward zero.
pub fn calculate_percentage(value: i128, percentage: u32) -> (part: i128)
    requires
        i128::MIN <= value * percentage <= i128::MAX,
    ensures
        part == quotient_toward_zero(value * percentage, 100),
{
    (value * (percentage as i128)) / 100
}

/// Accepts a price that is positive.
pub fn validate_price(price: i128) -> (verdict: Result<(), &'static str>)
    ensures
        price > 0 ==> verdict is Ok,
        price <= 0 ==> verdict == Err::<(), &'static str>("Price must be positive"),
{
    if price <= 0 {
        return Err("Price must be positive");
    }
    Ok(())
}

/// Accepts a duration of at least one day and at most ten years.
pub fn validate_duration(days: u32) -> (verdict: Result<(), &'static str>)
    ensures
        1 <= days <= MAX_DURATION_DAYS ==> verdict is Ok,
        days == 0 ==> verdict == Err::<(), &'static str>("Duration must be at least 1 day"),
        days > MAX_DURATION_DAYS ==> verdict == Err::<(), &'static str>(
            "Duration cannot exceed 10 years",
        ),
{
    if days == 0 {
        return Err("Duration must be at least 1 day");
    }
    if days > MAX_DURATION_DAYS {
        return Err("Duration cannot exceed 10 years");
    }
    Ok(())
}

} // verus!
