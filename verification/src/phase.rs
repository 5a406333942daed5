//! Reduction of millisecond quantities into one second's cycle.
//!
//! Two reductions are used. The midpoint estimate is reduced into the
//! half-open range `[0, 1000)`; a sleep before the next probe is reduced into
//! the closed range `[0, 1000]`, so that a positive whole number of seconds
//! stays a full second of sleep rather than none.

use vstd::prelude::*;

verus! {

/// The point of `x` within the second's cycle: the one value in `[0, 1000)`
/// that differs from `x` by a whole number of seconds.
pub open spec fn phase_of(x: int) -> int {
    x % 1000
}

/// The sleep that stands for `x`: what is left after adding one second while
/// `x` is negative and taking one second off while it is above a second.
pub open spec fn delay_of(x: int) -> int {
    if x <= 0 {
        x % 1000
    } else {
        (x - 1) % 1000 + 1
    }
}

/// Reduces `x` into `[0, 1000)` by whole seconds.
pub fn normalize_phase(x: i64) -> (r: i64)
    ensures
        r == phase_of(x as int),
        0 <= r < 1000,
        0 <= x < 1000 ==> r == x,
{
    phase_of_wide(x as i128)
}

/// Reduces `x` into `[0, 1000]` by whole seconds: a negative `x` is raised
/// into `[0, 1000)`, an `x` above one second is lowered into `(0, 1000]`, and
/// an `x` already in range is returned as it is.
pub fn normalize_delay(x: i64) -> (r: i64)
    ensures
        r == delay_of(x as int),
        0 <= r <= 1000,
        0 <= x <= 1000 ==> r == x,
{
    delay_of_wide(x as i128)
}

/// `normalize_phase` for a value that may lie outside the `i64` range.
pub(crate) fn phase_of_wide(x: i128) -> (r: i64)
    ensures
        r == phase_of(x as int),
        0 <= r < 1000,
{
    let m: i128 = x % 1000;
    if m < 0 {
        (m + 1000) as i64
    } else {
        m as i64
    }
}

/// `normalize_delay` for a value that may lie outside the `i64` range.
pub(crate) fn delay_of_wide(x: i128) -> (r: i64)
    ensures
        r == delay_of(x as int),
        0 <= r <= 1000,
{
    if x <= 0 {
        phase_of_wide(x)
    } else {
        ((x - 1) % 1000 + 1) as i64
    }
}

/// Every integer is reduced into `[0, 1000)`, by a whole number of seconds.
pub proof fn phase_in_range(x: int)
    ensures
        0 <= phase_of(x) < 1000,
        (x - phase_of(x)) % 1000 == 0,
{
}

/// Every integer is reduced into `[0, 1000]`, by a whole number of seconds.
pub proof fn delay_in_range(x: int)
    ensures
        0 <= delay_of(x) <= 1000,
        (x - delay_of(x)) % 1000 == 0,
{
}

/// A value already in `[0, 1000)` is its own phase, so reducing twice is the
/// same as reducing once.
pub proof fn phase_idempotent(x: int)
    ensures
        0 <= x < 1000 ==> phase_of(x) == x,
        phase_of(phase_of(x)) == phase_of(x),
{
}

/// A value already in `[0, 1000]` is its own delay, so reducing twice is the
/// same as reducing once.
pub proof fn delay_idempotent(x: int)
    ensures
        0 <= x <= 1000 ==> delay_of(x) == x,
        delay_of(delay_of(x)) == delay_of(x),
{
}

/// The delay is what the stepwise rule arrives at: one second is added while
/// the value is negative, then one second is taken off while it is above a
/// second.
pub proof fn delay_follows_steps(x: int)
    ensures
        x < 0 ==> delay_of(x) == delay_of(x + 1000),
        x > 1000 ==> delay_of(x) == delay_of(x - 1000),
{
}

/// The phase is what adding one second to a negative value, or taking one
/// second off a value of a second or more, leaves unchanged.
pub proof fn phase_follows_steps(x: int)
    ensures
        phase_of(x) == phase_of(x + 1000),
        phase_of(x) == phase_of(x - 1000),
{
}

} // verus!
