//! When a tick started and when the next one is due.

use vstd::prelude::*;

verus! {

/// The instant at which the tick after one started at `now` is due, in
/// seconds since the epoch: `now + interval`, held at `i64::MAX` where the
/// sum is beyond it.
pub open spec fn next_run_spec(now: i64, interval: u64) -> i64 {
    if now + interval > i64::MAX {
        i64::MAX
    } else {
        (now + interval) as i64
    }
}

/// The instant at which the tick after one started at `now` is due.
pub fn next_run(now: i64, interval: u64) -> (r: i64)
    ensures
        r == next_run_spec(now, interval),
{
    let sum: i128 = now as i128 + interval as i128;
    if sum > i64::MAX as i128 {
        i64::MAX
    } else {
        sum as i64
    }
}

/// The start of a tick and the instant at which the next is due, both in
/// seconds since the epoch.
#[derive(Clone, Copy, Debug, PartialEq, Eq, Structural)]
pub struct Schedule {
    pub started: i64,
    pub next: i64,
}

/// The schedule of a tick that starts at `now`, for ticks `interval` seconds
/// apart.
pub fn schedule_at(now: i64, interval: u64) -> (r: Schedule)
    ensures
        r == (Schedule { started: now, next: next_run_spec(now, interval) }),
{
    Schedule { started: now, next: next_run(now, interval) }
}

/// Reads the clock: `chrono::Utc::now()`, then `DateTime::timestamp` for the
/// whole seconds since the epoch. Nothing is claimed of the value, which is
/// the machine's. `Utc::now` panics where the machine's clock stands before
/// the epoch.
#[verifier::external_body]
fn clock_now() -> i64 {
    chrono::Utc::now().timestamp()
}

/// The schedule of a tick that starts now, by the machine's clock.
pub fn schedule_now(interval: u64) -> (r: Schedule)
    ensures
        r.next == next_run_spec(r.started, interval),
{
    schedule_at(clock_now(), interval)
}

} // verus!
