//! The subscription gateway: one session per connected client.
//!
//! A session decides; its driver acts. The driver waits for whichever comes
//! first, the next event of the feed or the shutdown signal, tells the
//! session what it saw, and carries out the directive it gets back.

use crate::event::{subscribe, FeedReader, FeedWriter, UpdateEvent};
use vstd::prelude::*;

verus! {

/// Where a connection stands.
#[derive(Clone, Copy, Debug, PartialEq, Eq, Structural)]
pub enum SessionState {
    /// Forwarding events to the client.
    Open,
    /// The close handshake is under way.
    Closing,
    /// Nothing more is written to the client.
    Closed,
}

/// What the driver saw since the last directive.
#[derive(Clone, Copy, Debug, PartialEq, Eq, Structural)]
pub enum Observation {
    /// The feed yielded an event. `stream_terminated` says whether the
    /// client's stream had already ended when it arrived.
    Event { event: UpdateEvent, stream_terminated: bool },
    /// The feed reported that events were skipped or that it is closed.
    FeedFailure,
    /// The event to forward could not be encoded for the wire.
    EncodingFailed,
    /// The event was written to the client.
    Forwarded,
    /// Writing to the client failed.
    WriteFailed,
    /// The shutdown signal fired.
    Shutdown,
    /// The close handshake went through.
    CloseCompleted,
    /// The close handshake failed.
    CloseFailed,
}

/// What the driver has to do next.
#[derive(Clone, Copy, Debug, PartialEq, Eq, Structural)]
pub enum Directive {
    /// Wait for the next event or the shutdown signal.
    AwaitNext,
    /// Encode this event and write it to the client.
    Forward(UpdateEvent),
    /// Perform the close handshake.
    CloseHandshake,
    /// Stop. `clean` is false where the connection ended on a failure.
    Finish { clean: bool },
}

/// The session's rule: the state and the directive that follow an
/// observation. A closed session stays closed, whatever is observed.
pub open spec fn transition(state: SessionState, seen: Observation) -> (SessionState, Directive) {
    match state {
        SessionState::Open => match seen {
            Observation::Event { event, stream_terminated } => if stream_terminated {
                (SessionState::Closed, Directive::Finish { clean: true })
            } else {
                (SessionState::Open, Directive::Forward(event))
            },
            Observation::FeedFailure => (SessionState::Open, Directive::AwaitNext),
            Observation::EncodingFailed => (SessionState::Open, Directive::AwaitNext),
            Observation::Forwarded => (SessionState::Open, Directive::AwaitNext),
            Observation::WriteFailed => (SessionState::Closed, Directive::Finish { clean: false }),
            Observation::Shutdown => (SessionState::Closing, Directive::CloseHandshake),
            Observation::CloseCompleted => (
                SessionState::Closed,
                Directive::Finish { clean: true },
            ),
            Observation::CloseFailed => (SessionState::Closed, Directive::Finish { clean: false }),
        },
        SessionState::Closing => match seen {
            Observation::CloseFailed => (SessionState::Closed, Directive::Finish { clean: false }),
            Observation::WriteFailed => (SessionState::Closed, Directive::Finish { clean: false }),
            _ => (SessionState::Closed, Directive::Finish { clean: true }),
        },
        SessionState::Closed => (SessionState::Closed, Directive::Finish { clean: true }),
    }
}

/// The state a session reaches from `state` after a run of observations.
pub open spec fn state_after(state: SessionState, seen: Seq<Observation>) -> SessionState
    decreases seen.len(),
{
    if seen.len() == 0 {
        state
    } else {
        transition(state_after(state, seen.drop_last()), seen.last()).0
    }
}

/// The events a session asks its driver to forward over a run of
/// observations, in order.
pub open spec fn forwarded(state: SessionState, seen: Seq<Observation>) -> Seq<UpdateEvent>
    decreases seen.len(),
{
    if seen.len() == 0 {
        Seq::empty()
    } else {
        let before = forwarded(state, seen.drop_last());
        match transition(state_after(state, seen.drop_last()), seen.last()).1 {
            Directive::Forward(event) => before.push(event),
            _ => before,
        }
    }
}

/// One client connection.
#[derive(Debug)]
pub struct Session {
    state: SessionState,
}

impl View for Session {
    type V = SessionState;

    closed spec fn view(&self) -> SessionState {
        self.state
    }
}

impl Session {
    /// Opens a session: it subscribes to the feed, so that the session sees
    /// the events published from now on, and starts in `Open`.
    pub fn open(feed: &FeedWriter) -> (r: (Session, FeedReader))
        ensures
            r.0@ == SessionState::Open,
    {
        let reader = subscribe(feed);
        (Session { state: SessionState::Open }, reader)
    }

    /// Where the session stands.
    pub fn state(&self) -> (s: SessionState)
        ensures
            s == self@,
    {
        self.state
    }

    /// Whether the driver has to stop.
    pub fn is_closed(&self) -> (b: bool)
        ensures
            b == (self@ == SessionState::Closed),
    {
        match self.state {
            SessionState::Closed => true,
            _ => false,
        }
    }

    /// Takes in what the driver saw and says what to do next.
    pub fn step(&mut self, seen: Observation) -> (d: Directive)
        ensures
            (final(self)@, d) == transition(old(self)@, seen),
    {
        let (next, directive) = match self.state {
            SessionState::Open => match seen {
                Observation::Event { event, stream_terminated } => {
                    if stream_terminated {
                        (SessionState::Closed, Directive::Finish { clean: true })
                    } else {
                        (SessionState::Open, Directive::Forward(event))
                    }
                },
                Observation::FeedFailure => (SessionState::Open, Directive::AwaitNext),
                Observation::EncodingFailed => (SessionState::Open, Directive::AwaitNext),
                Observation::Forwarded => (SessionState::Open, Directive::AwaitNext),
                Observation::WriteFailed => (
                    SessionState::Closed,
                    Directive::Finish { clean: false },
                ),
                Observation::Shutdown => (SessionState::Closing, Directive::CloseHandshake),
                Observation::CloseCompleted => (
                    SessionState::Closed,
                    Directive::Finish { clean: true },
                ),
                Observation::CloseFailed => (
                    SessionState::Closed,
                    Directive::Finish { clean: false },
                ),
            },
            SessionState::Closing => match seen {
                Observation::CloseFailed => (
                    SessionState::Closed,
                    Directive::Finish { clean: false },
                ),
                Observation::WriteFailed => (
                    SessionState::Closed,
                    Directive::Finish { clean: false },
                ),
                _ => (SessionState::Closed, Directive::Finish { clean: true }),
            },
            SessionState::Closed => (SessionState::Closed, Directive::Finish { clean: true }),
        };
        self.state = next;
        directive
    }
}

/// Once closed, a session stays closed and asks for nothing but to stop.
pub proof fn law_closed_is_final(seen: Observation)
    ensures
        transition(SessionState::Closed, seen) == (
            SessionState::Closed,
            Directive::Finish { clean: true },
        ),
{
}

/// A session forwards an event only while it is open, and only an event that
/// the feed has just yielded while the client's stream was still alive.
pub proof fn law_forwards_only_fresh_events(
    state: SessionState,
    seen: Observation,
    event: UpdateEvent,
)
    requires
        transition(state, seen).1 == Directive::Forward(event),
    ensures
        state == SessionState::Open,
        seen == (Observation::Event { event, stream_terminated: false }),
        transition(state, seen).0 == SessionState::Open,
{
}

/// The events of a run of feed deliveries: each observation is an event that
/// arrived while the client's stream was alive.
pub open spec fn deliveries(events: Seq<UpdateEvent>) -> Seq<Observation> {
    Seq::new(
        events.len(),
        |i: int| Observation::Event { event: events[i], stream_terminated: false },
    )
}

/// While the client keeps up and nothing fails, an open session forwards
/// every event the feed yields, each once and in the order of arrival, and
/// stays open.
pub proof fn law_forwards_each_once_in_order(events: Seq<UpdateEvent>)
    ensures
        forwarded(SessionState::Open, deliveries(events)) == events,
        state_after(SessionState::Open, deliveries(events)) == SessionState::Open,
    decreases events.len(),
{
    let seen = deliveries(events);
    if events.len() == 0 {
        assert(forwarded(SessionState::Open, seen) =~= events);
    } else {
        law_forwards_each_once_in_order(events.drop_last());
        assert(seen.drop_last() =~= deliveries(events.drop_last()));
        assert(seen.last() == (Observation::Event {
            event: events.last(),
            stream_terminated: false,
        }));
        assert(forwarded(SessionState::Open, seen) =~= events);
    }
}

/// After the client's stream has ended or a write has failed, nothing more
/// is forwarded, whatever the feed yields.
pub proof fn law_nothing_after_closed(seen: Seq<Observation>)
    ensures
        forwarded(SessionState::Closed, seen) == Seq::<UpdateEvent>::empty(),
        state_after(SessionState::Closed, seen) == SessionState::Closed,
    decreases seen.len(),
{
    if seen.len() > 0 {
        law_nothing_after_closed(seen.drop_last());
    }
}

} // verus!
