use std::time::{SystemTime, UNIX_EPOCH};

use vstd::prelude::*;

verus! {

/// The current time in whole seconds since the Unix epoch, through `SystemTime::now` and
/// `SystemTime::duration_since`; `None` when the clock reads earlier than the epoch. Nothing is
/// claimed of the value: it is the time of the machine.
#[verifier::external_body]
fn clock_seconds() -> Option<u64> {
    match SystemTime::now().duration_since(UNIX_EPOCH) {
        Ok(elapsed) => Some(elapsed.as_secs()),
        Err(_) => None,
    }
}

/// The current time in whole milliseconds since the Unix epoch, through `SystemTime::now` and
/// `SystemTime::duration_since`; `None` when the clock reads earlier than the epoch. Nothing is
/// claimed of the value, which is the time of the machine, truncated to 64 bits as `as u64` does.
#[verifier::external_body]
fn clock_millis() -> Option<u64> {
    match SystemTime::now().duration_since(UNIX_EPOCH) {
        Ok(elapsed) => Some(elapsed.as_millis() as u64),
        Err(_) => None,
    }
}

/// `a + b`, or `u64::MAX` when the sum does not fit.
pub open spec fn sat_add(a: u64, b: u64) -> u64 {
    if a + b > u64::MAX {
        u64::MAX
    } else {
        (a + b) as u64
    }
}

/// `a - b`, or zero when `b` is larger.
pub open spec fn sat_sub(a: u64, b: u64) -> u64 {
    if a < b {
        0
    } else {
        (a - b) as u64
    }
}

/// `a * b`, or `u64::MAX` when the product does not fit.
pub open spec fn sat_mul(a: u64, b: u64) -> u64 {
    if a * b > u64::MAX {
        u64::MAX
    } else {
        (a * b) as u64
    }
}

/// Seconds since the Unix epoch, zero when the clock reads earlier than the epoch.
pub fn unix_now() -> u64 {
    match clock_seconds() {
        Some(seconds) => seconds,
        None => 0,
    }
}

/// Milliseconds since the Unix epoch, zero when the clock reads earlier than the epoch.
pub fn unix_now_millis() -> u64 {
    match clock_millis() {
        Some(millis) => millis,
        None => 0,
    }
}

/// The instant `expires_in` seconds after `now`, saturating.
pub fn expires_at_from(now: u64, expires_in: u64) -> (r: u64)
    ensures
        r == sat_add(now, expires_in),
{
    now.saturating_add(expires_in)
}

/// The instant, in seconds since the epoch, at which something valid for `expires_in` seconds
/// from now expires.
pub fn expires_at(expires_in: u64) -> (r: u64)
    ensures
        exists|now: u64| r == sat_add(now, expires_in),
{
    let now = unix_now();
    expires_at_from(now, expires_in)
}

/// The instant, in milliseconds, `expires_in_secs` seconds after `now_millis`, saturating.
pub fn expires_at_millis_from(now_millis: u64, expires_in_secs: u64) -> (r: u64)
    ensures
        r == sat_add(now_millis, sat_mul(expires_in_secs, 1000)),
{
    let millis = if expires_in_secs > u64::MAX / 1000 {
        u64::MAX
    } else {
        expires_in_secs * 1000
    };
    now_millis.saturating_add(millis)
}

/// The instant, in milliseconds since the epoch, at which something valid for
/// `expires_in_secs` seconds from now expires.
pub fn expires_at_millis(expires_in_secs: u64) -> (r: u64)
    ensures
        exists|now: u64| r == sat_add(now, sat_mul(expires_in_secs, 1000)),
{
    let now = unix_now_millis();
    expires_at_millis_from(now, expires_in_secs)
}

/// Whether, at `now`, a deadline `expires_at` falls within the next `margin_secs` seconds or
/// has passed.
pub fn is_expired_at(now: u64, expires_at: u64, margin_secs: u64) -> (r: bool)
    ensures
        r == (sat_add(now, margin_secs) >= expires_at),
{
    now.saturating_add(margin_secs) >= expires_at
}

/// Whether a deadline (seconds since the epoch) falls within the next `margin_secs` seconds or
/// has passed.
pub fn is_expired(expires_at: u64, margin_secs: u64) -> (r: bool)
    ensures
        exists|now: u64| r == (sat_add(now, margin_secs) >= expires_at),
        expires_at <= margin_secs ==> r,
{
    let now = unix_now();
    is_expired_at(now, expires_at, margin_secs)
}

} // verus!
