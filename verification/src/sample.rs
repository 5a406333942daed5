//! One timestamped round trip to the server.

use vstd::prelude::*;

use crate::instant::Instant;

verus! {

/// Why no sample came out of a round trip.
#[derive(Clone, Copy, PartialEq, Eq, Structural, Debug)]
pub enum ProbeError {
    /// The response carried no date.
    MissingDateHeader,
    /// The three instants lie so far apart that their differences are no
    /// `i64` count of milliseconds.
    OutOfRange,
}

/// The lower bound that one round trip puts on the offset of the local clock
/// from the server's.
///
/// The server reports the start of its second, so when the request left, its
/// clock may have stood up to a full second after what it reported.
pub open spec fn lower_candidate_of(send: int, server_reported: int) -> int {
    (send - 1000) - server_reported
}

/// The upper bound that one round trip puts on the offset: when the answer
/// arrived, the server's clock stood no earlier than what it reported.
pub open spec fn upper_candidate_of(receive: int, server_reported: int) -> int {
    receive - server_reported
}

/// The local time that the round trip took.
pub open spec fn round_trip_of(send: int, receive: int) -> int {
    receive - send
}

/// Whether the three quantities derived from a round trip are `i64` counts of
/// milliseconds.
pub open spec fn sample_fits(send: int, receive: int, server_reported: int) -> bool {
    &&& i64::MIN <= lower_candidate_of(send, server_reported) <= i64::MAX
    &&& i64::MIN <= upper_candidate_of(receive, server_reported) <= i64::MAX
    &&& i64::MIN <= round_trip_of(send, receive) <= i64::MAX
}

/// The three timestamps of one round trip: the local instants just before
/// the request was sent and just after the answer arrived, and the instant
/// that the server reported, which has the resolution of a second.
///
/// A sample cannot be changed once made, and the three quantities derived
/// from it always fit an `i64`.
#[derive(Clone, Copy, Debug)]
pub struct ProbeSample {
    send: Instant,
    receive: Instant,
    server_reported: Instant,
}

impl ProbeSample {
    #[verifier::type_invariant]
    spec fn fits(self) -> bool {
        sample_fits(self.send@, self.receive@, self.server_reported@)
    }

    /// The local instant just before the request was sent.
    pub closed spec fn sent_at(self) -> int {
        self.send@
    }

    /// The local instant just after the answer arrived.
    pub closed spec fn received_at(self) -> int {
        self.receive@
    }

    /// The instant that the server reported.
    pub closed spec fn reported_at(self) -> int {
        self.server_reported@
    }

    /// The lower bound that this sample puts on the offset.
    pub open spec fn lower_candidate_spec(self) -> int {
        lower_candidate_of(self.sent_at(), self.reported_at())
    }

    /// The upper bound that this sample puts on the offset.
    pub open spec fn upper_candidate_spec(self) -> int {
        upper_candidate_of(self.received_at(), self.reported_at())
    }

    /// The local time that this round trip took.
    pub open spec fn round_trip_spec(self) -> int {
        round_trip_of(self.sent_at(), self.received_at())
    }

    /// The sample of a round trip with these three instants, or
    /// `OutOfRange` when they lie too far apart.
    pub fn new(send: Instant, receive: Instant, server_reported: Instant) -> (r: Result<
        ProbeSample,
        ProbeError,
    >)
        ensures
            r is Ok <==> sample_fits(send@, receive@, server_reported@),
            r matches Ok(s) ==> s.sent_at() == send@ && s.received_at() == receive@
                && s.reported_at() == server_reported@,
            r matches Err(e) ==> e == ProbeError::OutOfRange,
    {
        let lower: i128 = (send.millis as i128 - 1000) - server_reported.millis as i128;
        let upper: i128 = receive.millis as i128 - server_reported.millis as i128;
        let trip: i128 = receive.millis as i128 - send.millis as i128;
        if lower < i64::MIN as i128 || lower > i64::MAX as i128 {
            return Err(ProbeError::OutOfRange);
        }
        if upper < i64::MIN as i128 || upper > i64::MAX as i128 {
            return Err(ProbeError::OutOfRange);
        }
        if trip < i64::MIN as i128 || trip > i64::MAX as i128 {
            return Err(ProbeError::OutOfRange);
        }
        Ok(ProbeSample { send, receive, server_reported })
    }

    /// The sample of a round trip whose answer may have carried no date:
    /// `MissingDateHeader` when it carried none, else as `new`.
    pub fn from_response(send: Instant, receive: Instant, date: Option<Instant>) -> (r: Result<
        ProbeSample,
        ProbeError,
    >)
        ensures
            r is Ok <==> (date matches Some(d) && sample_fits(send@, receive@, d@)),
            r matches Ok(s) ==> s.sent_at() == send@ && s.received_at() == receive@
                && date is Some && s.reported_at() == (date->0)@,
            r matches Err(e) ==> e == (if date is None {
                ProbeError::MissingDateHeader
            } else {
                ProbeError::OutOfRange
            }),
    {
        match date {
            None => Err(ProbeError::MissingDateHeader),
            Some(d) => ProbeSample::new(send, receive, d),
        }
    }

    /// The local instant just before the request was sent.
    pub fn send(&self) -> (t: Instant)
        ensures
            t@ == self.sent_at(),
    {
        self.send
    }

    /// The local instant just after the answer arrived.
    pub fn receive(&self) -> (t: Instant)
        ensures
            t@ == self.received_at(),
    {
        self.receive
    }

    /// The instant that the server reported.
    pub fn server_reported(&self) -> (t: Instant)
        ensures
            t@ == self.reported_at(),
    {
        self.server_reported
    }

    /// The lower bound that this sample puts on the offset, in milliseconds.
    pub fn lower_candidate(&self) -> (c: i64)
        ensures
            c == self.lower_candidate_spec(),
    {
        proof {
            use_type_invariant(self);
        }
        let c: i128 = (self.send.millis as i128 - 1000) - self.server_reported.millis as i128;
        c as i64
    }

    /// The upper bound that this sample puts on the offset, in milliseconds.
    pub fn upper_candidate(&self) -> (c: i64)
        ensures
            c == self.upper_candidate_spec(),
    {
        proof {
            use_type_invariant(self);
        }
        let c: i128 = self.receive.millis as i128 - self.server_reported.millis as i128;
        c as i64
    }

    /// The local time that this round trip took, in milliseconds.
    pub fn round_trip(&self) -> (d: i64)
        ensures
            d == self.round_trip_spec(),
    {
        proof {
            use_type_invariant(self);
        }
        let d: i128 = self.receive.millis as i128 - self.send.millis as i128;
        d as i64
    }
}

/// Why the two bounds of a sample are safe. Let the server have read its
/// clock at a moment between the sending and the arrival, when the local
/// clock stood at `stamped` and the server's at `server_clock`, and let it
/// have reported the start of the second that its clock was in. Then the
/// offset of the local clock from the server's at that moment lies above the
/// lower bound and not above the upper one.
pub proof fn sample_brackets_true_offset(
    send: int,
    receive: int,
    server_reported: int,
    stamped: int,
    server_clock: int,
)
    requires
        send <= stamped <= receive,
        server_reported <= server_clock < server_reported + 1000,
    ensures
        lower_candidate_of(send, server_reported) < stamped - server_clock,
        stamped - server_clock <= upper_candidate_of(receive, server_reported),
{
}

/// The two bounds of one sample lie a second and the round trip apart.
pub proof fn sample_bounds_are_a_second_and_round_trip_apart(
    send: int,
    receive: int,
    server_reported: int,
)
    ensures
        upper_candidate_of(receive, server_reported) - lower_candidate_of(send, server_reported)
            == round_trip_of(send, receive) + 1000,
{
}

} // verus!
