//! The life of one connection between a client and the host.

use crate::message::{BusError, RuntimeError};
use vstd::prelude::*;

verus! {

/// Where a session stands.
#[derive(Clone, Copy, Debug, PartialEq, Eq, Structural)]
pub enum SessionState {
    /// The connection is being opened.
    Connecting,
    /// Node name and cookie are being exchanged.
    Handshaking,
    /// The peer is a full member of the cluster.
    Active,
    /// A shutdown was asked for; what is in flight is still written.
    Draining,
    /// The session is over. Nothing reopens it.
    Closed,
}

/// What happens to a session.
#[derive(Clone, Copy, Debug, PartialEq, Eq, Structural)]
pub enum SessionEvent {
    /// The connection stands.
    Connected,
    /// The cookie presented was the cluster's.
    HandshakeAccepted,
    /// The cookie presented was not the cluster's.
    HandshakeRejected,
    /// This side asks for an orderly end.
    ShutdownRequested,
    /// Everything in flight has been written.
    Drained,
    /// The connection broke.
    Disconnected,
}

/// What a step of the session tells its owner.
#[derive(Clone, Copy, Debug, PartialEq, Eq, Structural)]
pub enum SessionSignal {
    /// Nothing to report.
    Quiet,
    /// The handshake was refused; only this connection ends.
    Rejected(BusError),
    /// The session ended badly; nobody reconnects.
    Failed(RuntimeError),
}

/// The outcome of one step.
#[derive(Clone, Copy, Debug, PartialEq, Eq, Structural)]
pub struct SessionStep {
    pub next: SessionState,
    pub signal: SessionSignal,
}

/// How far along its life a session is.
pub open spec fn stage(state: SessionState) -> nat {
    match state {
        SessionState::Connecting => 0,
        SessionState::Handshaking => 1,
        SessionState::Active => 2,
        SessionState::Draining => 3,
        SessionState::Closed => 4,
    }
}

/// The state after `event`. An event that the state does not expect leaves it as it is.
pub open spec fn next_state(state: SessionState, event: SessionEvent) -> SessionState {
    match (state, event) {
        (SessionState::Closed, _) => SessionState::Closed,
        (_, SessionEvent::Disconnected) => SessionState::Closed,
        (SessionState::Connecting, SessionEvent::Connected) => SessionState::Handshaking,
        (SessionState::Handshaking, SessionEvent::HandshakeAccepted) => SessionState::Active,
        (SessionState::Handshaking, SessionEvent::HandshakeRejected) => SessionState::Closed,
        (SessionState::Active, SessionEvent::ShutdownRequested) => SessionState::Draining,
        (SessionState::Draining, SessionEvent::Drained) => SessionState::Closed,
        _ => state,
    }
}

/// What `event` in `state` tells the owner.
pub open spec fn signal_of(state: SessionState, event: SessionEvent) -> SessionSignal {
    match (state, event) {
        (SessionState::Active, SessionEvent::Disconnected) => SessionSignal::Failed(
            RuntimeError::PeerLost,
        ),
        (SessionState::Handshaking, SessionEvent::HandshakeRejected) => SessionSignal::Rejected(
            BusError::AuthRejected,
        ),
        _ => SessionSignal::Quiet,
    }
}

impl SessionState {
    /// The state in which every session begins.
    pub fn start() -> (s: SessionState)
        ensures
            s == SessionState::Connecting,
    {
        SessionState::Connecting
    }

    /// Takes one event and gives the next state and what to report.
    pub fn step(self, event: SessionEvent) -> (out: SessionStep)
        ensures
            out.next == next_state(self, event),
            out.signal == signal_of(self, event),
    {
        let signal = match (self, event) {
            (SessionState::Active, SessionEvent::Disconnected) => SessionSignal::Failed(
                RuntimeError::PeerLost,
            ),
            (SessionState::Handshaking, SessionEvent::HandshakeRejected) => SessionSignal::Rejected(
                BusError::AuthRejected,
            ),
            _ => SessionSignal::Quiet,
        };
        let next = match (self, event) {
            (SessionState::Closed, _) => SessionState::Closed,
            (_, SessionEvent::Disconnected) => SessionState::Closed,
            (SessionState::Connecting, SessionEvent::Connected) => SessionState::Handshaking,
            (SessionState::Handshaking, SessionEvent::HandshakeAccepted) => SessionState::Active,
            (SessionState::Handshaking, SessionEvent::HandshakeRejected) => SessionState::Closed,
            (SessionState::Active, SessionEvent::ShutdownRequested) => SessionState::Draining,
            (SessionState::Draining, SessionEvent::Drained) => SessionState::Closed,
            _ => self,
        };
        SessionStep { next, signal }
    }

    /// Whether publishes and subscriptions pass over the session: only while it is active.
    pub fn carries_traffic(self) -> (yes: bool)
        ensures
            yes == (self == SessionState::Active),
    {
        match self {
            SessionState::Active => true,
            _ => false,
        }
    }

    /// Whether the session is over.
    pub fn is_closed(self) -> (yes: bool)
        ensures
            yes == (self == SessionState::Closed),
    {
        match self {
            SessionState::Closed => true,
            _ => false,
        }
    }
}

/// The state after a run of events.
pub open spec fn run(state: SessionState, events: Seq<SessionEvent>) -> SessionState
    decreases events.len(),
{
    if events.len() == 0 {
        state
    } else {
        next_state(run(state, events.drop_last()), events.last())
    }
}

/// A session never goes back: each step leaves it where it is or takes it further.
pub proof fn law_session_only_advances(state: SessionState, event: SessionEvent)
    ensures
        stage(next_state(state, event)) >= stage(state),
{
}

/// A closed session stays closed whatever happens: there is no reconnect.
pub proof fn law_closed_is_final(events: Seq<SessionEvent>)
    ensures
        run(SessionState::Closed, events) == SessionState::Closed,
    decreases events.len(),
{
    if events.len() > 0 {
        law_closed_is_final(events.drop_last());
    }
}

/// `PeerLost` is reported exactly for a disconnect of an active session, which is
/// closed by it.
pub proof fn law_peer_lost_only_when_active(state: SessionState, event: SessionEvent)
    ensures
        signal_of(state, event) == SessionSignal::Failed(RuntimeError::PeerLost) <==> state
            == SessionState::Active && event == SessionEvent::Disconnected,
        signal_of(state, event) != SessionSignal::Quiet ==> next_state(state, event)
            == SessionState::Closed,
{
}

/// A session becomes active only through an accepted handshake.
pub proof fn law_active_needs_accepted_handshake(state: SessionState, event: SessionEvent)
    requires
        state != SessionState::Active,
        next_state(state, event) == SessionState::Active,
    ensures
        state == SessionState::Handshaking,
        event == SessionEvent::HandshakeAccepted,
{
}

} // verus!
