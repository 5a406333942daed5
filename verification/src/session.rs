//! The course of one run, as a machine that is told what happened and says
//! what to do next.
//!
//! The caller does the work that reaches outside the program: it checks the
//! secure connection, makes the round trips, sleeps, and writes the result.
//! After each piece of work it reports the event, and is handed the next
//! action.

use vstd::prelude::*;

use crate::estimator::{
    bounds_after, estimate_of, widest_interval, Estimate, Estimated, Estimator, Interval,
    OffsetBounds,
};
use crate::instant::Instant;
use crate::phase::phase_of;
use crate::report::{failure_of, window_of, Outcome, RunResult};
use crate::sample::ProbeSample;
use crate::scheduler::{delay_at, delay_from, next_delay_now};

verus! {

/// The number of rounds of a run where none is asked for.
pub const DEFAULT_NUM_POLLS: u32 = 8;

/// The rounds of a run for which this many were asked for: the default
/// where none was, and none where fewer than none were.
pub fn rounds_for(requested: Option<i32>) -> (rounds: u32)
    ensures
        rounds == match requested {
            None => DEFAULT_NUM_POLLS as int,
            Some(n) => if n < 0 { 0 } else { n as int },
        },
{
    match requested {
        None => DEFAULT_NUM_POLLS,
        Some(n) => if n < 0 {
            0
        } else {
            n as u32
        },
    }
}

/// What a session waits for.
#[derive(Clone, Copy, PartialEq, Eq, Structural, Debug)]
pub enum Phase {
    /// The check of the secure connection, made once before any round.
    AwaitingPreflight,
    /// The sample of the round trip that was asked for.
    AwaitingSample,
    /// The end of the sleep that was asked for.
    AwaitingSleep,
    /// Nothing: the result has been handed out.
    Finished,
}

/// What happened outside, as a mathematical value.
pub enum Occurred {
    PreflightPassed,
    PreflightFailed(Seq<char>),
    Sampled(ProbeSample),
    Slept,
}

/// What happened outside.
#[derive(Debug)]
pub enum Event {
    /// The secure connection was verified.
    PreflightPassed,
    /// The secure connection could not be verified, for the cause given.
    PreflightFailed(String),
    /// A round trip was made and gave this sample.
    Sampled(ProbeSample),
    /// The sleep that was asked for is over.
    Slept,
}

impl View for Event {
    type V = Occurred;

    open spec fn view(&self) -> Occurred {
        match self {
            Event::PreflightPassed => Occurred::PreflightPassed,
            Event::PreflightFailed(cause) => Occurred::PreflightFailed(cause@),
            Event::Sampled(sample) => Occurred::Sampled(*sample),
            Event::Slept => Occurred::Slept,
        }
    }
}

/// What to do next, as a mathematical value.
pub enum Step {
    Probe,
    Sleep { millis: int, estimate: Estimated },
    Report(Outcome),
    Halt,
    Rejected,
}

/// What to do next.
#[derive(Debug)]
pub enum Action {
    /// Make one round trip and report its sample.
    Probe,
    /// Sleep for this many milliseconds and report that it is over. The
    /// estimate is what the sample just taken in has led to.
    Sleep { millis: i64, estimate: Estimate },
    /// Write the result: the run is over.
    Report(RunResult),
    /// Nothing is left to do: the result was handed out before.
    Halt,
    /// The event does not answer what the session waits for; nothing has
    /// changed.
    Rejected,
}

impl View for Action {
    type V = Step;

    open spec fn view(&self) -> Step {
        match self {
            Action::Probe => Step::Probe,
            Action::Sleep { millis, estimate } => Step::Sleep {
                millis: *millis as int,
                estimate: estimate@,
            },
            Action::Report(result) => Step::Report(result@),
            Action::Halt => Step::Halt,
            Action::Rejected => Step::Rejected,
        }
    }
}

/// A session as a mathematical value.
pub struct SessionState {
    /// The server that is probed.
    pub server: Seq<char>,
    /// What the session waits for.
    pub phase: Phase,
    /// The rounds that are still to be made.
    pub remaining: nat,
    /// The bounds as they stand.
    pub bounds: Interval,
    /// The samples taken in so far, oldest first.
    pub history: Seq<ProbeSample>,
}

/// The session before anything has happened: it waits for the check of the
/// secure connection and holds the widest bounds.
pub open spec fn initial_state(server: Seq<char>, rounds: nat) -> SessionState {
    SessionState {
        server,
        phase: Phase::AwaitingPreflight,
        remaining: rounds,
        bounds: widest_interval(),
        history: Seq::empty(),
    }
}

/// The session once the rounds are over or have begun: the result where no
/// round is left, else the next round trip.
pub open spec fn after_pause(s: SessionState) -> (SessionState, Step) {
    if s.remaining == 0 {
        (
            SessionState { phase: Phase::Finished, ..s },
            Step::Report(window_of(s.server, s.bounds.low, s.bounds.high)),
        )
    } else {
        (SessionState { phase: Phase::AwaitingSample, ..s }, Step::Probe)
    }
}

/// The session after a sample has come in at a point `within` milliseconds
/// into the local second: the bounds are narrowed, one round less is left,
/// and the sleep is the wait until the local second stands at the phase
/// estimate.
pub open spec fn after_sample(s: SessionState, sample: ProbeSample, within: int) -> (
    SessionState,
    Step,
) {
    let estimate = estimate_of(s.bounds, sample);
    (
        SessionState {
            phase: Phase::AwaitingSleep,
            remaining: (s.remaining - 1) as nat,
            bounds: estimate.bounds,
            history: s.history.push(sample),
            ..s
        },
        Step::Sleep { millis: delay_at(estimate.dt, within), estimate },
    )
}

/// What an event does to a session and what is to be done next, where the
/// event is handled at a point `within` milliseconds into the local second.
///
/// A failed check ends the run at once with the failure as its result. A
/// passed check and the end of a sleep lead to the next round trip, or to
/// the window as the result where no round is left. A sample narrows the
/// bounds and leads to a sleep. A finished session halts whatever happens,
/// and an event that does not answer what the session waits for is rejected
/// and changes nothing.
pub open spec fn step_spec(s: SessionState, event: Occurred, within: int) -> (SessionState, Step) {
    match (s.phase, event) {
        (Phase::Finished, _) => (s, Step::Halt),
        (Phase::AwaitingPreflight, Occurred::PreflightFailed(cause)) => (
            SessionState { phase: Phase::Finished, ..s },
            Step::Report(failure_of(s.server, cause)),
        ),
        (Phase::AwaitingPreflight, Occurred::PreflightPassed) => after_pause(s),
        (Phase::AwaitingSample, Occurred::Sampled(sample)) => if s.remaining > 0 {
            after_sample(s, sample, within)
        } else {
            (s, Step::Rejected)
        },
        (Phase::AwaitingSleep, Occurred::Slept) => after_pause(s),
        _ => (s, Step::Rejected),
    }
}

/// How the delay after a sample is arrived at.
enum Pace {
    /// From this point of the local second, in `[0, 1000)`.
    At(i64),
    /// From the point at which the clock stands when it is read.
    Clock,
}

/// One run against one server.
pub struct Session {
    server: String,
    phase: Phase,
    remaining: u32,
    estimator: Estimator,
}

impl View for Session {
    type V = SessionState;

    closed spec fn view(&self) -> SessionState {
        SessionState {
            server: self.server@,
            phase: self.phase,
            remaining: self.remaining as nat,
            bounds: self.estimator.bounds_spec()@,
            history: self.estimator.history(),
        }
    }
}

impl Session {
    /// A session that is to make `rounds` round trips to `server`. The first
    /// thing to do is to check the secure connection.
    pub fn new(server: &str, rounds: u32) -> (s: Session)
        ensures
            s@ == initial_state(server@, rounds as nat),
    {
        Session {
            server: server.to_owned(),
            phase: Phase::AwaitingPreflight,
            remaining: rounds,
            estimator: Estimator::new(),
        }
    }

    /// What the session waits for.
    pub fn phase(&self) -> (p: Phase)
        ensures
            p == self@.phase,
    {
        self.phase
    }

    /// The rounds that are still to be made.
    pub fn remaining(&self) -> (n: u32)
        ensures
            n == self@.remaining,
    {
        self.remaining
    }

    /// The bounds as they stand: what is left of the widest interval after
    /// every sample so far.
    pub fn bounds(&self) -> (b: OffsetBounds)
        ensures
            b@ == self@.bounds,
            b@ == bounds_after(widest_interval(), self@.history),
    {
        self.estimator.bounds()
    }

    /// The next round trip, or the window as the result where no round is
    /// left.
    fn resume(&mut self) -> (action: Action)
        ensures
            final(self)@ == after_pause(old(self)@).0,
            action@ == after_pause(old(self)@).1,
    {
        if self.remaining == 0 {
            let bounds = self.estimator.bounds();
            self.phase = Phase::Finished;
            Action::Report(RunResult::window(self.server.as_str(), bounds))
        } else {
            self.phase = Phase::AwaitingSample;
            Action::Probe
        }
    }

    /// Handles one event, with the delay after a sample arrived at as `pace`
    /// says.
    fn handle(&mut self, event: Event, pace: Pace) -> (action: Action)
        requires
            pace matches Pace::At(within) ==> 0 <= within < 1000,
        ensures
            pace matches Pace::At(within) ==> final(self)@ == step_spec(
                old(self)@,
                event@,
                within as int,
            ).0 && action@ == step_spec(old(self)@, event@, within as int).1,
            pace is Clock ==> exists|within: int|
                0 <= within < 1000 && final(self)@ == (#[trigger] step_spec(
                    old(self)@,
                    event@,
                    within,
                )).0 && action@ == step_spec(old(self)@, event@, within).1,
    {
        let ghost before = self@;
        let ghost occurred = event@;
        let ghost mut point: int = match pace {
            Pace::At(within) => within as int,
            Pace::Clock => 0,
        };
        let action = match self.phase {
            Phase::Finished => Action::Halt,
            Phase::AwaitingPreflight => match event {
                Event::PreflightFailed(cause) => {
                    self.phase = Phase::Finished;
                    Action::Report(
                        RunResult::verification_failure(self.server.as_str(), cause.as_str()),
                    )
                },
                Event::PreflightPassed => self.resume(),
                _ => Action::Rejected,
            },
            Phase::AwaitingSleep => match event {
                Event::Slept => self.resume(),
                _ => Action::Rejected,
            },
            Phase::AwaitingSample => match event {
                Event::Sampled(sample) => {
                    if self.remaining > 0 {
                        let estimate = self.estimator.update(sample);
                        let millis = match pace {
                            Pace::At(within) => delay_from(estimate.dt, within),
                            Pace::Clock => {
                                let millis = next_delay_now(estimate.dt);
                                proof {
                                    point = choose|within: int|
                                        0 <= within < 1000 && millis == #[trigger] delay_at(
                                            estimate.dt as int,
                                            within,
                                        );
                                }
                                millis
                            },
                        };
                        self.remaining = self.remaining - 1;
                        self.phase = Phase::AwaitingSleep;
                        Action::Sleep { millis, estimate }
                    } else {
                        Action::Rejected
                    }
                },
                _ => Action::Rejected,
            },
        };
        assert(self@ == step_spec(before, occurred, point).0);
        assert(action@ == step_spec(before, occurred, point).1);
        action
    }

    /// Handles one event as if it had come in at the instant `now`, and says
    /// what to do next.
    pub fn advance(&mut self, event: Event, now: Instant) -> (action: Action)
        ensures
            final(self)@ == step_spec(old(self)@, event@, phase_of(now@)).0,
            action@ == step_spec(old(self)@, event@, phase_of(now@)).1,
    {
        self.handle(event, Pace::At(now.millis_within_second()))
    }

    /// Handles one event and says what to do next. The sleep after a sample
    /// is counted from where the clock stands when the sample has been taken
    /// in: the step is the one for some point of the local second.
    pub fn step(&mut self, event: Event) -> (action: Action)
        ensures
            exists|within: int|
                0 <= within < 1000 && final(self)@ == (#[trigger] step_spec(
                    old(self)@,
                    event@,
                    within,
                )).0 && action@ == step_spec(old(self)@, event@, within).1,
    {
        self.handle(event, Pace::Clock)
    }
}

/// One event of a run, with the point of the local second at which it was
/// handled.
pub struct Occurrence {
    pub event: Occurred,
    pub within: int,
}

/// The session that `start` has become after the occurrences, one after the
/// other.
pub open spec fn state_after(start: SessionState, occurrences: Seq<Occurrence>) -> SessionState
    decreases occurrences.len(),
{
    if occurrences.len() == 0 {
        start
    } else {
        step_spec(
            state_after(start, occurrences.drop_last()),
            occurrences.last().event,
            occurrences.last().within,
        ).0
    }
}

/// What the session says to do in answer to the occurrence at place `i`.
pub open spec fn action_at(start: SessionState, occurrences: Seq<Occurrence>, i: int) -> Step {
    step_spec(state_after(start, occurrences.take(i)), occurrences[i].event, occurrences[i].within).1
}

/// A finished session stays as it is whatever happens.
pub proof fn finished_stays_finished(start: SessionState, occurrences: Seq<Occurrence>)
    requires
        start.phase == Phase::Finished,
    ensures
        state_after(start, occurrences) == start,
    decreases occurrences.len(),
{
    if occurrences.len() > 0 {
        finished_stays_finished(start, occurrences.drop_last());
    }
}

/// Where the check of the secure connection fails, the run ends there: the
/// answer to the failure is the failure as the result, every later answer is
/// to halt, and no sample is ever taken in, so that the bounds stay the
/// widest and no round is used up.
pub proof fn failed_preflight_ends_run(
    server: Seq<char>,
    rounds: nat,
    cause: Seq<char>,
    occurrences: Seq<Occurrence>,
    i: int,
)
    requires
        0 <= i < occurrences.len(),
        occurrences[0].event == Occurred::PreflightFailed(cause),
    ensures
        action_at(initial_state(server, rounds), occurrences, 0) == Step::Report(
            failure_of(server, cause),
        ),
        i > 0 ==> action_at(initial_state(server, rounds), occurrences, i) == Step::Halt,
        state_after(initial_state(server, rounds), occurrences.take(i + 1)) == (SessionState {
            phase: Phase::Finished,
            ..initial_state(server, rounds)
        }),
    decreases i,
{
    let start = initial_state(server, rounds);
    assert(occurrences.take(0) =~= Seq::<Occurrence>::empty());
    assert(occurrences.take(i + 1).drop_last() =~= occurrences.take(i));
    assert(occurrences.take(i + 1).last() == occurrences[i]);
    if i > 0 {
        failed_preflight_ends_run(server, rounds, cause, occurrences, i - 1);
    }
}

/// Throughout a run the bounds are what the samples taken in so far leave of
/// the widest interval, and every sample taken in has used up one round:
/// a run of `rounds` rounds never takes in more than `rounds` samples.
pub proof fn run_accounts_for_samples(
    server: Seq<char>,
    rounds: nat,
    occurrences: Seq<Occurrence>,
)
    ensures
        state_after(initial_state(server, rounds), occurrences).bounds == bounds_after(
            widest_interval(),
            state_after(initial_state(server, rounds), occurrences).history,
        ),
        state_after(initial_state(server, rounds), occurrences).remaining + state_after(
            initial_state(server, rounds),
            occurrences,
        ).history.len() == rounds,
        state_after(initial_state(server, rounds), occurrences).server == server,
    decreases occurrences.len(),
{
    if occurrences.len() > 0 {
        run_accounts_for_samples(server, rounds, occurrences.drop_last());
        let before = state_after(initial_state(server, rounds), occurrences.drop_last());
        let last = occurrences.last();
        if before.phase == Phase::AwaitingSample && before.remaining > 0 {
            if let Occurred::Sampled(sample) = last.event {
                assert(before.history.push(sample).drop_last() =~= before.history);
            }
        }
    }
}

/// A window is reported only when every round has been made, and it is the
/// window of what all the samples of the run have left of the widest
/// interval.
pub proof fn window_reports_all_rounds(
    server: Seq<char>,
    rounds: nat,
    occurrences: Seq<Occurrence>,
    i: int,
)
    requires
        0 <= i < occurrences.len(),
        action_at(initial_state(server, rounds), occurrences, i) matches Step::Report(outcome)
            && outcome is Window,
    ensures
        state_after(initial_state(server, rounds), occurrences.take(i)).history.len() == rounds,
        action_at(initial_state(server, rounds), occurrences, i) == Step::Report(
            window_of(
                server,
                bounds_after(
                    widest_interval(),
                    state_after(initial_state(server, rounds), occurrences.take(i)).history,
                ).low,
                bounds_after(
                    widest_interval(),
                    state_after(initial_state(server, rounds), occurrences.take(i)).history,
                ).high,
            ),
        ),
{
    run_accounts_for_samples(server, rounds, occurrences.take(i));
}

} // verus!
