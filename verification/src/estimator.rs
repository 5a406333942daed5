//! The interval that the offset of the local clock from the server's is known
//! to lie in, and how each round trip narrows it.

use vstd::prelude::*;

use crate::phase::{phase_of, phase_of_wide};
use crate::sample::ProbeSample;

verus! {

/// An interval of offsets in milliseconds, as a mathematical value.
pub struct Interval {
    pub low: int,
    pub high: int,
}

impl Interval {
    /// The interval cut down to what also lies within `[lower, upper]`.
    /// Neither end ever moves outward.
    pub open spec fn narrowed(self, lower: int, upper: int) -> Interval {
        Interval {
            low: if lower > self.low { lower } else { self.low },
            high: if upper < self.high { upper } else { self.high },
        }
    }

    /// The interval cut down by the two bounds that `sample` gives.
    pub open spec fn narrowed_by(self, sample: ProbeSample) -> Interval {
        self.narrowed(sample.lower_candidate_spec(), sample.upper_candidate_spec())
    }

    /// The distance from the low end to the high end; negative when the ends
    /// have crossed.
    pub open spec fn width(self) -> int {
        self.high - self.low
    }

    /// The middle of the interval, rounded down.
    pub open spec fn midpoint(self) -> int {
        (self.low + self.high) / 2
    }

    /// Where within the local second the server's second is taken to begin:
    /// the middle of the interval, less half of the round trip for the way
    /// there, reduced into `[0, 1000)`.
    pub open spec fn phase_estimate(self, round_trip: int) -> int {
        phase_of(self.midpoint() - round_trip / 2)
    }
}

/// The widest interval that can be held: nothing is known yet.
pub open spec fn widest_interval() -> Interval {
    Interval { low: i64::MIN as int, high: i64::MAX as int }
}

/// The interval that is left of `start` after the samples have narrowed it
/// one after the other.
pub open spec fn bounds_after(start: Interval, samples: Seq<ProbeSample>) -> Interval
    decreases samples.len(),
{
    if samples.len() == 0 {
        start
    } else {
        bounds_after(start, samples.drop_last()).narrowed_by(samples.last())
    }
}

/// The feasible interval for the offset (local clock less server clock), in
/// milliseconds.
///
/// The ends are not kept in order: samples that contradict each other can
/// drive `low` above `high`, and the interval is then reported as it is.
#[derive(Clone, Copy, PartialEq, Eq, Structural, Debug)]
pub struct OffsetBounds {
    pub low: i64,
    pub high: i64,
}

impl View for OffsetBounds {
    type V = Interval;

    open spec fn view(&self) -> Interval {
        Interval { low: self.low as int, high: self.high as int }
    }
}

impl OffsetBounds {
    /// The widest interval, held before any sample has arrived.
    pub fn widest() -> (b: OffsetBounds)
        ensures
            b@ == widest_interval(),
    {
        OffsetBounds { low: i64::MIN, high: i64::MAX }
    }

    /// The distance from `low` to `high` in milliseconds; negative when the
    /// ends have crossed.
    pub fn width(&self) -> (w: i128)
        ensures
            w == self@.width(),
    {
        self.high as i128 - self.low as i128
    }
}

/// What a sample did to the bounds.
#[derive(Clone, Copy, PartialEq, Eq, Structural, Debug)]
pub enum Narrowing {
    /// The sample raised `low`; it lowered `high` as well where its upper
    /// bound lay below it.
    RaisedLow,
    /// The sample left `low` and lowered `high`.
    LoweredHigh,
    /// The sample told nothing new: the bounds stayed as they were.
    Uninformative,
}

/// Which of the three cases a sample with the bounds `lower` and `upper`
/// falls under, the first that applies.
pub open spec fn narrowing_of(bounds: Interval, lower: int, upper: int) -> Narrowing {
    if lower > bounds.low {
        Narrowing::RaisedLow
    } else if upper < bounds.high {
        Narrowing::LoweredHigh
    } else {
        Narrowing::Uninformative
    }
}

impl Narrowing {
    /// The letter that marks the case in a diagnostic line.
    pub open spec fn letter_spec(self) -> Seq<char> {
        match self {
            Narrowing::RaisedLow => "B"@,
            Narrowing::LoweredHigh => "A"@,
            Narrowing::Uninformative => "C"@,
        }
    }

    /// The letter that marks the case in a diagnostic line.
    pub fn letter(&self) -> (s: &'static str)
        ensures
            s@ == self.letter_spec(),
    {
        match self {
            Narrowing::RaisedLow => "B",
            Narrowing::LoweredHigh => "A",
            Narrowing::Uninformative => "C",
        }
    }
}

/// What one update hands on, as a mathematical value.
pub struct Estimated {
    pub bounds: Interval,
    pub dt: int,
    pub narrowing: Narrowing,
}

/// What one update hands on: the bounds as they now stand, the phase
/// estimate for pacing the next probe, and what the sample did.
#[derive(Clone, Copy, PartialEq, Eq, Structural, Debug)]
pub struct Estimate {
    pub bounds: OffsetBounds,
    pub dt: i64,
    pub narrowing: Narrowing,
}

impl View for Estimate {
    type V = Estimated;

    open spec fn view(&self) -> Estimated {
        Estimated { bounds: self.bounds@, dt: self.dt as int, narrowing: self.narrowing }
    }
}

/// What a sample does to the bounds `before`: they are cut down to what also
/// lies within the sample's two bounds, and the phase estimate is taken from
/// the result and the sample's round trip.
pub open spec fn estimate_of(before: Interval, sample: ProbeSample) -> Estimated {
    Estimated {
        bounds: before.narrowed_by(sample),
        dt: before.narrowed_by(sample).phase_estimate(sample.round_trip_spec()),
        narrowing: narrowing_of(
            before,
            sample.lower_candidate_spec(),
            sample.upper_candidate_spec(),
        ),
    }
}

/// Half of `x`, rounded down.
fn floor_half(x: i128) -> (h: i128)
    requires
        i128::MIN < x,
    ensures
        h == x / 2,
{
    if x >= 0 {
        x / 2
    } else {
        (x - 1) / 2
    }
}

/// The phase estimate of `bounds` for a round trip of `round_trip`
/// milliseconds.
pub fn phase_estimate(bounds: OffsetBounds, round_trip: i64) -> (dt: i64)
    ensures
        dt == bounds@.phase_estimate(round_trip as int),
        0 <= dt < 1000,
{
    let middle: i128 = floor_half(bounds.low as i128 + bounds.high as i128);
    phase_of_wide(middle - floor_half(round_trip as i128))
}

/// The running estimate: the bounds, narrowed by every sample so far.
pub struct Estimator {
    bounds: OffsetBounds,
    seen: Ghost<Seq<ProbeSample>>,
}

impl Estimator {
    #[verifier::type_invariant]
    spec fn consistent(self) -> bool {
        self.bounds@ == bounds_after(widest_interval(), self.seen@)
    }

    /// The samples taken in so far, oldest first.
    pub closed spec fn history(self) -> Seq<ProbeSample> {
        self.seen@
    }

    /// The bounds as they stand.
    pub closed spec fn bounds_spec(self) -> OffsetBounds {
        self.bounds
    }

    /// An estimator that has seen no sample and holds the widest bounds.
    pub fn new() -> (e: Estimator)
        ensures
            e.history() == Seq::<ProbeSample>::empty(),
            e.bounds_spec()@ == widest_interval(),
    {
        Estimator { bounds: OffsetBounds::widest(), seen: Ghost(Seq::empty()) }
    }

    /// The bounds as they stand: what is left of the widest interval after
    /// every sample so far.
    pub fn bounds(&self) -> (b: OffsetBounds)
        ensures
            b == self.bounds_spec(),
            b@ == bounds_after(widest_interval(), self.history()),
    {
        proof {
            use_type_invariant(self);
        }
        self.bounds
    }

    /// Takes one sample in. The bounds are cut down to what also lies within
    /// the sample's two bounds, so `low` never falls and `high` never rises;
    /// the phase estimate is taken from the new bounds and the sample's round
    /// trip.
    pub fn update(&mut self, sample: ProbeSample) -> (e: Estimate)
        ensures
            final(self).history() == old(self).history().push(sample),
            final(self).bounds_spec()@ == old(self).bounds_spec()@.narrowed_by(sample),
            final(self).bounds_spec().low >= old(self).bounds_spec().low,
            final(self).bounds_spec().high <= old(self).bounds_spec().high,
            e.bounds == final(self).bounds_spec(),
            e@ == estimate_of(old(self).bounds_spec()@, sample),
            0 <= e.dt < 1000,
    {
        proof {
            use_type_invariant(&*self);
        }
        let lower = sample.lower_candidate();
        let upper = sample.upper_candidate();
        let mut bounds = self.bounds;
        let narrowing = if lower > bounds.low {
            bounds.low = lower;
            if upper < bounds.high {
                bounds.high = upper;
            }
            Narrowing::RaisedLow
        } else if upper < bounds.high {
            bounds.high = upper;
            Narrowing::LoweredHigh
        } else {
            Narrowing::Uninformative
        };
        let ghost before = self.seen@;
        proof {
            assert(before.push(sample).drop_last() =~= before);
            assert(before.push(sample).last() == sample);
        }
        *self = Estimator { bounds, seen: Ghost(before.push(sample)) };
        let dt = phase_estimate(bounds, sample.round_trip());
        Estimate { bounds, dt, narrowing }
    }
}

/// One more sample never moves an end of the interval outward.
pub proof fn narrowing_never_widens(bounds: Interval, sample: ProbeSample)
    ensures
        bounds.narrowed_by(sample).low >= bounds.low,
        bounds.narrowed_by(sample).high <= bounds.high,
{
}

/// Over any run of samples the low end never falls and the high end never
/// rises: what stands after the first `j` samples lies within what stood
/// after the first `i` of them, for `i <= j`.
pub proof fn narrowing_is_monotone(start: Interval, samples: Seq<ProbeSample>, i: int, j: int)
    requires
        0 <= i <= j <= samples.len(),
    ensures
        bounds_after(start, samples.take(i)).low <= bounds_after(start, samples.take(j)).low,
        bounds_after(start, samples.take(i)).high >= bounds_after(start, samples.take(j)).high,
    decreases j - i,
{
    if i < j {
        narrowing_is_monotone(start, samples, i, j - 1);
        assert(samples.take(j).drop_last() =~= samples.take(j - 1));
    }
}

/// A sample that falls under `Uninformative` leaves the bounds as they were,
/// and one under `LoweredHigh` leaves `low`.
pub proof fn narrowing_cases(bounds: Interval, lower: int, upper: int)
    ensures
        narrowing_of(bounds, lower, upper) == Narrowing::Uninformative ==> bounds.narrowed(
            lower,
            upper,
        ) == bounds,
        narrowing_of(bounds, lower, upper) == Narrowing::LoweredHigh ==> bounds.narrowed(
            lower,
            upper,
        ) == (Interval { low: bounds.low, high: upper }),
        narrowing_of(bounds, lower, upper) == Narrowing::RaisedLow ==> bounds.narrowed(
            lower,
            upper,
        ).low == lower,
{
}

/// Whether the two bounds of `sample` have `offset` between them.
pub open spec fn brackets(sample: ProbeSample, offset: int) -> bool {
    sample.lower_candidate_spec() <= offset <= sample.upper_candidate_spec()
}

/// Samples that agree on an offset keep it: where the interval at the start
/// and every sample have `offset` between their bounds, so has the interval
/// that is left, and its low end is therefore not above its high end.
pub proof fn agreeing_samples_keep_the_offset(
    start: Interval,
    samples: Seq<ProbeSample>,
    offset: int,
)
    requires
        start.low <= offset <= start.high,
        forall|i: int| 0 <= i < samples.len() ==> brackets(#[trigger] samples[i], offset),
    ensures
        bounds_after(start, samples).low <= offset <= bounds_after(start, samples).high,
        bounds_after(start, samples).width() >= 0,
    decreases samples.len(),
{
    if samples.len() > 0 {
        let earlier = samples.drop_last();
        assert forall|i: int| 0 <= i < earlier.len() implies brackets(
            #[trigger] earlier[i],
            offset,
        ) by {
            assert(earlier[i] == samples[i]);
        }
        agreeing_samples_keep_the_offset(start, earlier, offset);
        assert(brackets(samples[samples.len() - 1], offset));
    }
}

/// Once a sample has been taken in, the interval is no wider than a second
/// and the round trip of that sample, and no later sample widens it.
pub proof fn width_is_bounded_by_any_sample(
    start: Interval,
    samples: Seq<ProbeSample>,
    i: int,
)
    requires
        0 <= i < samples.len(),
    ensures
        bounds_after(start, samples).width() <= samples[i].round_trip_spec() + 1000,
    decreases samples.len(),
{
    if i < samples.len() - 1 {
        assert(samples.drop_last()[i] == samples[i]);
        width_is_bounded_by_any_sample(start, samples.drop_last(), i);
    }
}

} // verus!
