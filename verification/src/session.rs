//! The decisions of a discovery session. The session owns no socket: the
//! caller sends what the session hands it, tells the session what arrived,
//! and stops listening when the session says so.

use vstd::prelude::*;
use crate::codec::{decode, decode_spec, encode, encode_spec, DecodeError};
use crate::probe::{Probe, Request};
use crate::response::{DeviceRecord, ProbeMatchSuccessBody, ReductionError};

verus! {

/// Why one datagram gave no device record.
#[derive(Debug, Clone, Copy, PartialEq, Eq, Structural)]
pub enum ResponseError {
    /// The datagram could not be read as a reply.
    Decode(DecodeError),
    /// The reply was read but gives no record.
    Reduction(ReductionError),
}

impl ResponseError {
    /// What to tell a person about the error: what the error inside says.
    pub open spec fn message(self) -> Seq<char> {
        match self {
            ResponseError::Decode(e) => e.message(),
            ResponseError::Reduction(e) => e.message(),
        }
    }

    /// What to tell a person about the error.
    pub fn describe(&self) -> (r: String)
        ensures
            r@ == self.message(),
    {
        match self {
            ResponseError::Decode(e) => e.describe(),
            ResponseError::Reduction(e) => e.describe(),
        }
    }
}

/// What one datagram amounts to: the record of the device that sent it, or
/// the reason why it gives none.
pub open spec fn interpret_spec(bytes: Seq<u8>) -> Result<DeviceRecord, ResponseError> {
    match decode_spec(bytes) {
        Err(e) => Err(ResponseError::Decode(e)),
        Ok(reply) => match reply.reduce() {
            Ok(record) => Ok(record),
            Err(e) => Err(ResponseError::Reduction(e)),
        },
    }
}

/// The mathematical value of what a datagram amounts to.
pub open spec fn outcome_view(r: Result<ProbeMatchSuccessBody, ResponseError>) -> Result<
    DeviceRecord,
    ResponseError,
> {
    match r {
        Ok(body) => Ok(body@),
        Err(e) => Err(e),
    }
}

/// The mathematical values of a list of outcomes, in its order.
pub open spec fn outcomes_view(v: Seq<Result<ProbeMatchSuccessBody, ResponseError>>) -> Seq<
    Result<DeviceRecord, ResponseError>,
> {
    Seq::new(v.len(), |i: int| outcome_view(v[i]))
}

/// Reads one datagram and reduces the reply in it.
pub fn interpret(bytes: &[u8]) -> (r: Result<ProbeMatchSuccessBody, ResponseError>)
    ensures
        outcome_view(r) == interpret_spec(bytes@),
{
    match decode(bytes) {
        Err(e) => Err(ResponseError::Decode(e)),
        Ok(reply) => match reply.payload() {
            Ok(body) => Ok(body),
            Err(e) => Err(ResponseError::Reduction(e)),
        },
    }
}

/// What the transport reports to a session.
#[derive(Debug, Clone, PartialEq, Eq)]
pub enum Event {
    /// A datagram arrived; these are its bytes.
    Datagram(Vec<u8>),
    /// Nothing arrived within the time allowed.
    TimedOut,
}

/// The mathematical value of an [`Event`].
pub enum EventView {
    Datagram(Seq<u8>),
    TimedOut,
}

impl View for Event {
    type V = EventView;

    open spec fn view(&self) -> EventView {
        match self {
            Event::Datagram(bytes) => EventView::Datagram(bytes@),
            Event::TimedOut => EventView::TimedOut,
        }
    }
}

/// What the caller of a session does next.
#[derive(Debug, Clone, Copy, PartialEq, Eq, Structural)]
pub enum Next {
    /// Wait for another datagram and report what happens.
    Listen,
    /// Stop listening: the session is over.
    Stop,
}

/// The mathematical value of a [`Discovery`]: what has been collected, in
/// the order of arrival, and whether the session still listens.
pub struct DiscoveryState {
    pub found: Seq<Result<DeviceRecord, ResponseError>>,
    pub listening: bool,
}

impl DiscoveryState {
    /// A session that has just sent its inquiry.
    pub open spec fn start() -> DiscoveryState {
        DiscoveryState { found: Seq::empty(), listening: true }
    }

    /// The session after an event. While it listens, a datagram adds what
    /// it amounts to behind all that came before, whether a record or an
    /// error, and a timeout ends the session. Once the session is over
    /// nothing changes it.
    pub open spec fn after(self, event: EventView) -> DiscoveryState {
        if !self.listening {
            self
        } else {
            match event {
                EventView::Datagram(bytes) => DiscoveryState {
                    found: self.found.push(interpret_spec(bytes)),
                    listening: true,
                },
                EventView::TimedOut => DiscoveryState { found: self.found, listening: false },
            }
        }
    }

    /// The session after a run of events, the first of them first.
    pub open spec fn after_all(self, events: Seq<EventView>) -> DiscoveryState
        decreases events.len(),
    {
        if events.len() == 0 {
            self
        } else {
            self.after_all(events.drop_last()).after(events.last())
        }
    }
}

/// The events of a session in which the given datagrams arrive, one after
/// the other, and then nothing more.
pub open spec fn arrivals(datagrams: Seq<Seq<u8>>) -> Seq<EventView> {
    Seq::new(datagrams.len(), |i: int| EventView::Datagram(datagrams[i])).push(
        EventView::TimedOut,
    )
}

/// One discovery session: an inquiry is sent once, and what arrives until
/// the first timeout is collected. Replies are not held against the
/// correlation id of the inquiry: whatever arrives is collected, and the
/// caller may compare the ids.
#[derive(Debug)]
pub struct Discovery {
    found: Vec<Result<ProbeMatchSuccessBody, ResponseError>>,
    listening: bool,
}

impl View for Discovery {
    type V = DiscoveryState;

    closed spec fn view(&self) -> DiscoveryState {
        DiscoveryState { found: outcomes_view(self.found@), listening: self.listening }
    }
}

/// The inquiry with a given correlation id.
pub open spec fn inquiry(correlation_id: Seq<char>) -> Request {
    Request::Inquiry { uuid: correlation_id }
}

impl Discovery {
    /// Opens a session and gives the bytes of the inquiry to broadcast,
    /// once, before listening.
    pub fn begin(correlation_id: &str) -> (r: (Discovery, Vec<u8>))
        ensures
            r.0@ == DiscoveryState::start(),
            r.1@ == encode_spec(inquiry(correlation_id@)),
    {
        let probe = Probe::Inquiry { uuid: correlation_id.to_owned() };
        let session = Discovery { found: Vec::new(), listening: true };
        assert(session@.found =~= Seq::empty());
        (session, encode(&probe))
    }

    /// Whether the session still listens.
    pub fn is_listening(&self) -> (r: bool)
        ensures
            r == self@.listening,
    {
        self.listening
    }

    /// Takes in what the transport reports and says what to do next: go on
    /// listening while the session does, stop once it is over.
    pub fn step(&mut self, event: Event) -> (r: Next)
        ensures
            final(self)@ == old(self)@.after(event@),
            r == (if final(self)@.listening {
                Next::Listen
            } else {
                Next::Stop
            }),
    {
        if !self.listening {
            return Next::Stop;
        }
        match event {
            Event::Datagram(bytes) => {
                let outcome = interpret(bytes.as_slice());
                self.found.push(outcome);
                assert(self@.found =~= old(self)@.found.push(interpret_spec(bytes@)));
                Next::Listen
            },
            Event::TimedOut => {
                self.listening = false;
                Next::Stop
            },
        }
    }

    /// Ends the session and hands out what was collected, in the order of
    /// arrival.
    pub fn into_results(self) -> (r: Vec<Result<ProbeMatchSuccessBody, ResponseError>>)
        ensures
            outcomes_view(r@) == self@.found,
            r@.len() == self@.found.len(),
    {
        self.found
    }
}

/// A session in which some datagrams arrive and then nothing more ends
/// with one outcome for each datagram, in the order of arrival, each what
/// its datagram amounts to. A datagram that is refused takes its place in
/// the list like any other and keeps none of the others out.
pub proof fn lemma_discovery_collects(datagrams: Seq<Seq<u8>>)
    ensures
        DiscoveryState::start().after_all(arrivals(datagrams)) == (DiscoveryState {
            found: Seq::new(datagrams.len(), |i: int| interpret_spec(datagrams[i])),
            listening: false,
        }),
{
    let events = arrivals(datagrams);
    let heard = events.drop_last();
    lemma_discovery_listens(datagrams, datagrams.len() as int);
    assert(heard.take(datagrams.len() as int) =~= heard);
    assert(heard =~= Seq::new(datagrams.len(), |i: int| EventView::Datagram(datagrams[i])));
}

/// While datagrams arrive the session listens and has one outcome for each
/// of those that have arrived so far.
pub proof fn lemma_discovery_listens(datagrams: Seq<Seq<u8>>, n: int)
    requires
        0 <= n <= datagrams.len(),
    ensures
        DiscoveryState::start().after_all(
            Seq::new(datagrams.len(), |i: int| EventView::Datagram(datagrams[i])).take(n),
        ) == (DiscoveryState {
            found: Seq::new(n as nat, |i: int| interpret_spec(datagrams[i])),
            listening: true,
        }),
    decreases n,
{
    let all = Seq::new(datagrams.len(), |i: int| EventView::Datagram(datagrams[i]));
    let now = DiscoveryState::start().after_all(all.take(n));
    if n == 0 {
        assert(now.found =~= Seq::new(0, |i: int| interpret_spec(datagrams[i])));
    } else {
        lemma_discovery_listens(datagrams, n - 1);
        assert(all.take(n).drop_last() =~= all.take(n - 1));
        assert(now.found =~= Seq::new(n as nat, |i: int| interpret_spec(datagrams[i])));
    }
}

/// Once a session is over, nothing that still arrives changes it.
pub proof fn lemma_discovery_stays_over(state: DiscoveryState, events: Seq<EventView>)
    requires
        !state.listening,
    ensures
        state.after_all(events) == state,
    decreases events.len(),
{
    if events.len() > 0 {
        lemma_discovery_stays_over(state, events.drop_last());
    }
}

} // verus!
