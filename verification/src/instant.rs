//! Points in time with millisecond resolution.

use vstd::prelude::*;

use crate::phase::{normalize_phase, phase_of};

verus! {

/// Nanoseconds in one second.
pub const NANOS_PER_SECOND: i32 = 1_000_000_000;

/// Nanoseconds in one millisecond.
pub const NANOS_PER_MILLI: i32 = 1_000_000;

/// A point in time, counted in whole milliseconds from a fixed reference.
///
/// Which reference is meant does not matter as long as the instants that are
/// compared with each other share it.
#[derive(Clone, Copy, PartialEq, Eq, Structural, Debug)]
pub struct Instant {
    pub millis: i64,
}

impl View for Instant {
    type V = int;

    /// The count of milliseconds from the reference.
    open spec fn view(&self) -> int {
        self.millis as int
    }
}

/// The millisecond count of the instant that lies `sec` whole seconds and
/// `nsec` nanoseconds after the reference; what is left of `nsec` below a
/// millisecond is dropped.
pub open spec fn millis_of_timespec(sec: int, nsec: int) -> int {
    sec * 1000 + nsec / 1_000_000
}

/// Whether `sec` seconds and `nsec` nanoseconds name an instant that fits:
/// the nanoseconds lie within one second and the millisecond count is an
/// `i64`.
pub open spec fn timespec_fits(sec: int, nsec: int) -> bool {
    &&& 0 <= nsec < 1_000_000_000
    &&& i64::MIN <= millis_of_timespec(sec, nsec) <= i64::MAX
}

impl Instant {
    /// The instant `millis` milliseconds after the reference.
    pub fn from_millis(millis: i64) -> (t: Instant)
        ensures
            t@ == millis,
    {
        Instant { millis }
    }

    /// The instant `sec` seconds and `nsec` nanoseconds after the reference,
    /// where `nsec` counts forward from the second also before the reference.
    /// `None` when `nsec` is not within one second or the millisecond count
    /// does not fit.
    pub fn from_secs_nanos(sec: i64, nsec: i32) -> (t: Option<Instant>)
        ensures
            t is Some <==> timespec_fits(sec as int, nsec as int),
            t matches Some(i) ==> i@ == millis_of_timespec(sec as int, nsec as int),
    {
        if nsec < 0 || nsec >= NANOS_PER_SECOND {
            return None;
        }
        let whole: i128 = (sec as i128) * 1000;
        let part: i128 = (nsec / NANOS_PER_MILLI) as i128;
        let total: i128 = whole + part;
        if total < i64::MIN as i128 || total > i64::MAX as i128 {
            None
        } else {
            Some(Instant { millis: total as i64 })
        }
    }

    /// The count of milliseconds from the reference.
    pub fn millis(&self) -> (m: i64)
        ensures
            m == self@,
    {
        self.millis
    }

    /// The milliseconds from `earlier` to this instant, negative when this
    /// instant is the earlier one. `None` when the difference is no `i64`.
    pub fn millis_since(&self, earlier: Instant) -> (d: Option<i64>)
        ensures
            d is Some <==> i64::MIN <= self@ - earlier@ <= i64::MAX,
            d matches Some(m) ==> m == self@ - earlier@,
    {
        self.millis.checked_sub(earlier.millis)
    }

    /// How far this instant lies into its second, in `[0, 1000)`.
    pub fn millis_within_second(&self) -> (m: i64)
        ensures
            m == phase_of(self@),
            0 <= m < 1000,
    {
        normalize_phase(self.millis)
    }
}

} // verus!
