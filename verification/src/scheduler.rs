//! Pacing of the probes: how long to wait so that the next probe leaves when
//! the server's second is taken to begin.

use vstd::prelude::*;

use crate::instant::{Instant, NANOS_PER_MILLI};
use crate::phase::{delay_of, delay_of_wide, phase_of};

verus! {

/// The wait, from a point `within` milliseconds into the local second, until
/// the local second stands at `dt`: their difference, reduced into
/// `[0, 1000]`.
pub open spec fn delay_at(dt: int, within: int) -> int {
    delay_of(dt - within)
}

/// The wait from the instant `now` until the local second stands at `dt`.
pub open spec fn delay_for(dt: int, now: int) -> int {
    delay_at(dt, phase_of(now))
}

/// The wait in milliseconds, from a point `within` milliseconds into the
/// local second, until the local second stands at `dt`.
pub fn delay_from(dt: i64, within: i64) -> (b: i64)
    ensures
        b == delay_at(dt as int, within as int),
        0 <= b <= 1000,
{
    delay_of_wide(dt as i128 - within as i128)
}

/// The wait in milliseconds before the next probe: from `now` until the
/// local second stands at the phase estimate `dt`.
pub fn next_delay(dt: i64, now: Instant) -> (b: i64)
    ensures
        b == delay_for(dt as int, now@),
        0 <= b <= 1000,
{
    delay_from(dt, now.millis_within_second())
}

/// The nanoseconds of a wait of `millis` milliseconds, or `None` where they
/// are no `i64`.
pub fn delay_nanos(millis: i64) -> (nanos: Option<i64>)
    ensures
        nanos is Some <==> i64::MIN <= millis * 1_000_000 <= i64::MAX,
        nanos matches Some(n) ==> n == millis * 1_000_000,
{
    millis.checked_mul(1_000_000)
}

/// Reads the wall clock with `time::now_utc` and hands back the nanoseconds
/// that `Tm::to_timespec` gives for it. Nothing is claimed of which instant
/// was read; the count lies within one second, which `Timespec::new` checks
/// before any value is returned.
#[verifier::external_body]
fn clock_nanos_within_second() -> (nsec: i32)
    ensures
        0 <= nsec < 1_000_000_000,
{
    time::now_utc().to_timespec().nsec
}

/// The wait in milliseconds before the next probe, from the moment of the
/// call until the local second stands at `dt`. The clock decides which wait
/// it is: it is the wait from some point of the local second.
pub fn next_delay_now(dt: i64) -> (b: i64)
    ensures
        exists|within: int| 0 <= within < 1000 && b == #[trigger] delay_at(dt as int, within),
        0 <= b <= 1000,
{
    let nsec = clock_nanos_within_second();
    let within: i64 = (nsec / NANOS_PER_MILLI) as i64;
    let b = delay_from(dt, within);
    assert(0 <= within < 1000 && b == delay_at(dt as int, within as int));
    b
}

/// A probe that leaves after the wait leaves when the local second stands
/// at the estimate: the wait is never longer than a second, and the instant
/// at its end has the phase of `dt`.
pub proof fn delay_lands_on_estimate(dt: int, now: int)
    ensures
        0 <= delay_for(dt, now) <= 1000,
        phase_of(now + delay_for(dt, now)) == phase_of(dt),
{
}

/// For a phase estimate in `[0, 1000)` the wait is shorter than a second.
pub proof fn delay_for_phase_is_short(dt: int, now: int)
    requires
        0 <= dt < 1000,
    ensures
        0 <= delay_for(dt, now) < 1000,
{
}

} // verus!
