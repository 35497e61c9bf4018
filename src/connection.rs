//! The connection supply's decisions. One background task keeps one QUIC
//! connection on offer: it connects, enables keep-alive, hands the connection
//! downstream and, once it has been taken, connects again. Whatever fails
//! sends it back to connecting; a closed downstream ends it.
use vstd::prelude::*;

verus! {

#[derive(Debug, Clone, Copy, PartialEq, Eq, Structural)]
pub enum ConnectionPhase {
    /// No connection: the next step is to connect.
    Idle,
    /// Connected: the next step is to enable keep-alive.
    Alive,
    /// Ready: the next step is to hand the connection downstream.
    Offered,
    /// Downstream is gone: nothing more is done.
    Stopped,
}

/// What came of the step last taken.
#[derive(Debug, Clone, Copy, PartialEq, Eq, Structural)]
pub enum ConnectionEvent {
    Connected,
    ConnectFailed,
    KeepAliveEnabled,
    KeepAliveFailed,
    Delivered,
    DownstreamClosed,
}

/// The step to take next.
#[derive(Debug, Clone, Copy, PartialEq, Eq, Structural)]
pub enum ConnectionAction {
    Connect,
    EnableKeepAlive,
    Offer,
    Stop,
}

/// The phase after `e` in phase `p`. An event that does not answer the step of
/// the phase leaves it unchanged.
pub open spec fn connection_next(p: ConnectionPhase, e: ConnectionEvent) -> ConnectionPhase {
    match (p, e) {
        (ConnectionPhase::Idle, ConnectionEvent::Connected) => ConnectionPhase::Alive,
        (ConnectionPhase::Idle, ConnectionEvent::ConnectFailed) => ConnectionPhase::Idle,
        (ConnectionPhase::Alive, ConnectionEvent::KeepAliveEnabled) => ConnectionPhase::Offered,
        (ConnectionPhase::Alive, ConnectionEvent::KeepAliveFailed) => ConnectionPhase::Idle,
        (ConnectionPhase::Offered, ConnectionEvent::Delivered) => ConnectionPhase::Idle,
        (ConnectionPhase::Offered, ConnectionEvent::DownstreamClosed) => ConnectionPhase::Stopped,
        _ => p,
    }
}

/// The step that phase `p` calls for.
pub open spec fn connection_action(p: ConnectionPhase) -> ConnectionAction {
    match p {
        ConnectionPhase::Idle => ConnectionAction::Connect,
        ConnectionPhase::Alive => ConnectionAction::EnableKeepAlive,
        ConnectionPhase::Offered => ConnectionAction::Offer,
        ConnectionPhase::Stopped => ConnectionAction::Stop,
    }
}

/// The phase after a run of events.
pub open spec fn connection_run(p: ConnectionPhase, events: Seq<ConnectionEvent>) -> ConnectionPhase
    decreases events.len(),
{
    if events.len() == 0 {
        p
    } else {
        connection_run(connection_next(p, events[0]), events.drop_first())
    }
}

/// The connection supply's state.
pub struct Connection {
    pub phase: ConnectionPhase,
}

impl Connection {
    /// A supply that has not connected yet.
    pub fn new() -> (r: Connection)
        ensures
            r.phase == ConnectionPhase::Idle,
    {
        Connection { phase: ConnectionPhase::Idle }
    }

    /// The step that the current phase calls for.
    pub fn action(&self) -> (r: ConnectionAction)
        ensures
            r == connection_action(self.phase),
    {
        match self.phase {
            ConnectionPhase::Idle => ConnectionAction::Connect,
            ConnectionPhase::Alive => ConnectionAction::EnableKeepAlive,
            ConnectionPhase::Offered => ConnectionAction::Offer,
            ConnectionPhase::Stopped => ConnectionAction::Stop,
        }
    }

    /// Takes in what came of the last step and returns the next one.
    pub fn step(&mut self, event: ConnectionEvent) -> (r: ConnectionAction)
        ensures
            final(self).phase == connection_next(old(self).phase, event),
            r == connection_action(final(self).phase),
    {
        let next = match (self.phase, event) {
            (ConnectionPhase::Idle, ConnectionEvent::Connected) => ConnectionPhase::Alive,
            (ConnectionPhase::Idle, ConnectionEvent::ConnectFailed) => ConnectionPhase::Idle,
            (ConnectionPhase::Alive, ConnectionEvent::KeepAliveEnabled) => ConnectionPhase::Offered,
            (ConnectionPhase::Alive, ConnectionEvent::KeepAliveFailed) => ConnectionPhase::Idle,
            (ConnectionPhase::Offered, ConnectionEvent::Delivered) => ConnectionPhase::Idle,
            (ConnectionPhase::Offered, ConnectionEvent::DownstreamClosed) => ConnectionPhase::Stopped,
            (p, _) => p,
        };
        self.phase = next;
        self.action()
    }
}

} // verus!
