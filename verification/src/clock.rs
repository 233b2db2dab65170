//! The stop deadline and how long to sleep until it.
//!
//! A clock reading is a number of nanoseconds since a moment that the program
//! fixes when it starts.

use vstd::prelude::*;

verus! {

/// Nanoseconds in a second.
pub const NANOS_PER_SEC: u128 = 1_000_000_000;

/// Nanoseconds in a millisecond.
pub const NANOS_PER_MILLI: u128 = 1_000_000;

/// The longest sleep while a stop is under way, in milliseconds.
pub const MAX_SLEEP_MILLIS: u16 = 1000;

/// The moment `timeout` seconds after the reading `now`.
pub open spec fn deadline_after(now: u64, timeout: u64) -> u128 {
    (now + timeout * NANOS_PER_SEC) as u128
}

/// How long to sleep at the reading `now` with a stop due by `deadline`:
/// nothing once the deadline is reached, otherwise the whole milliseconds left
/// until it, a second at most.
pub open spec fn sleep_until(deadline: u128, now: u64) -> Option<u16> {
    if now >= deadline {
        None
    } else {
        let millis = (deadline - now) / NANOS_PER_MILLI as int;
        Some(if millis < MAX_SLEEP_MILLIS { millis as u16 } else { MAX_SLEEP_MILLIS })
    }
}

/// The moment by which a stop that begins at the reading `now` must be over.
pub fn stop_deadline(now: u64, timeout: u64) -> (deadline: u128)
    ensures
        deadline == now + timeout * NANOS_PER_SEC,
        deadline == deadline_after(now, timeout),
{
    now as u128 + timeout as u128 * NANOS_PER_SEC
}

/// How long to sleep, in milliseconds, or `None` if the deadline is reached.
pub fn poll_timeout(deadline: u128, now: u64) -> (millis: Option<u16>)
    ensures
        millis == sleep_until(deadline, now),
{
    if now as u128 >= deadline {
        return None;
    }
    let millis: u128 = (deadline - now as u128) / NANOS_PER_MILLI;
    if millis < MAX_SLEEP_MILLIS as u128 {
        Some(millis as u16)
    } else {
        Some(MAX_SLEEP_MILLIS)
    }
}

/// A sleep ends by the deadline and lasts a second at most, and there is one
/// exactly while the deadline is ahead.
pub proof fn law_sleep_ends_by_deadline(deadline: u128, now: u64)
    ensures
        sleep_until(deadline, now) is None <==> now >= deadline,
        sleep_until(deadline, now) matches Some(millis) ==> {
            &&& now + millis * NANOS_PER_MILLI <= deadline
            &&& millis <= MAX_SLEEP_MILLIS
        },
{
}

/// The deadline lies as many seconds of a thousand million nanoseconds behind
/// the reading as the timeout says: a later reading moves it by as much, and a
/// second more of timeout by a second.
pub proof fn law_deadline_lies_the_timeout_ahead(now: u64, timeout: u64)
    ensures
        deadline_after(now, timeout) == now + timeout * 1_000_000_000,
        deadline_after(now, 0) == now,
        timeout < u64::MAX ==> deadline_after(now, (timeout + 1) as u64) == deadline_after(
            now,
            timeout,
        ) + 1_000_000_000,
        now < u64::MAX ==> deadline_after((now + 1) as u64, timeout) == deadline_after(now, timeout)
            + 1,
{
}

/// A sleep is as long as it may be: either a full second, or a millisecond more
/// would go beyond the deadline.
pub proof fn law_sleep_is_not_cut_short(deadline: u128, now: u64)
    ensures
        sleep_until(deadline, now) matches Some(millis) ==> millis == 1000 || now + (millis + 1)
            * 1_000_000 > deadline,
        sleep_until(deadline, now) matches Some(millis) ==> millis <= 1000 && now + millis
            * 1_000_000 <= deadline,
{
}

} // verus!
