//! The stream supply's decisions. For each connection that the connection
//! supply hands over, it opens bidirectional streams one after another and
//! hands each downstream; when opening fails the connection is dropped and
//! the next one fetched. A closed downstream, or an exhausted connection
//! supply, ends it.
use crate::connection::{connection_next, connection_run, ConnectionEvent, ConnectionPhase};
use vstd::prelude::*;

verus! {

#[derive(Debug, Clone, Copy, PartialEq, Eq, Structural)]
pub enum StreamPhase {
    /// No connection: the next step is to fetch one.
    AwaitingConnection,
    /// Holding a connection: the next step is to open a stream on it.
    Opening,
    /// Holding a stream: the next step is to hand it downstream.
    Forwarding,
    /// Nothing more is done.
    Stopped,
}

/// What came of the step last taken.
#[derive(Debug, Clone, Copy, PartialEq, Eq, Structural)]
pub enum StreamEvent {
    ConnectionFetched,
    ConnectionsExhausted,
    Opened,
    OpenFailed,
    Forwarded,
    DownstreamClosed,
}

/// The step to take next.
#[derive(Debug, Clone, Copy, PartialEq, Eq, Structural)]
pub enum StreamAction {
    FetchConnection,
    OpenStream,
    Forward,
    Stop,
}

/// The phase after `e` in phase `p`. An event that does not answer the step of
/// the phase leaves it unchanged.
pub open spec fn stream_next(p: StreamPhase, e: StreamEvent) -> StreamPhase {
    match (p, e) {
        (StreamPhase::AwaitingConnection, StreamEvent::ConnectionFetched) => StreamPhase::Opening,
        (StreamPhase::AwaitingConnection, StreamEvent::ConnectionsExhausted) => StreamPhase::Stopped,
        (StreamPhase::Opening, StreamEvent::Opened) => StreamPhase::Forwarding,
        (StreamPhase::Opening, StreamEvent::OpenFailed) => StreamPhase::AwaitingConnection,
        (StreamPhase::Forwarding, StreamEvent::Forwarded) => StreamPhase::Opening,
        (StreamPhase::Forwarding, StreamEvent::DownstreamClosed) => StreamPhase::Stopped,
        _ => p,
    }
}

/// The step that phase `p` calls for.
pub open spec fn stream_action(p: StreamPhase) -> StreamAction {
    match p {
        StreamPhase::AwaitingConnection => StreamAction::FetchConnection,
        StreamPhase::Opening => StreamAction::OpenStream,
        StreamPhase::Forwarding => StreamAction::Forward,
        StreamPhase::Stopped => StreamAction::Stop,
    }
}

/// The phase after a run of events.
pub open spec fn stream_run(p: StreamPhase, events: Seq<StreamEvent>) -> StreamPhase
    decreases events.len(),
{
    if events.len() == 0 {
        p
    } else {
        stream_run(stream_next(p, events[0]), events.drop_first())
    }
}

/// The stream supply's state.
pub struct Stream {
    pub phase: StreamPhase,
}

impl Stream {
    /// A supply that holds no connection yet.
    pub fn new() -> (r: Stream)
        ensures
            r.phase == StreamPhase::AwaitingConnection,
    {
        Stream { phase: StreamPhase::AwaitingConnection }
    }

    /// The step that the current phase calls for.
    pub fn action(&self) -> (r: StreamAction)
        ensures
            r == stream_action(self.phase),
    {
        match self.phase {
            StreamPhase::AwaitingConnection => StreamAction::FetchConnection,
            StreamPhase::Opening => StreamAction::OpenStream,
            StreamPhase::Forwarding => StreamAction::Forward,
            StreamPhase::Stopped => StreamAction::Stop,
        }
    }

    /// Takes in what came of the last step and returns the next one.
    pub fn step(&mut self, event: StreamEvent) -> (r: StreamAction)
        ensures
            final(self).phase == stream_next(old(self).phase, event),
            r == stream_action(final(self).phase),
    {
        let next = match (self.phase, event) {
            (StreamPhase::AwaitingConnection, StreamEvent::ConnectionFetched) => StreamPhase::Opening,
            (StreamPhase::AwaitingConnection, StreamEvent::ConnectionsExhausted) => {
                StreamPhase::Stopped
            },
            (StreamPhase::Opening, StreamEvent::Opened) => StreamPhase::Forwarding,
            (StreamPhase::Opening, StreamEvent::OpenFailed) => StreamPhase::AwaitingConnection,
            (StreamPhase::Forwarding, StreamEvent::Forwarded) => StreamPhase::Opening,
            (StreamPhase::Forwarding, StreamEvent::DownstreamClosed) => StreamPhase::Stopped,
            (p, _) => p,
        };
        self.phase = next;
        self.action()
    }
}

/// `n` failed connection attempts in a row.
pub open spec fn failed_attempts(n: nat) -> Seq<ConnectionEvent> {
    Seq::new(n, |i: int| ConnectionEvent::ConnectFailed)
}

proof fn lemma_failed_attempts_keep_idle(n: nat)
    ensures
        connection_run(ConnectionPhase::Idle, failed_attempts(n)) == ConnectionPhase::Idle,
    decreases n,
{
    if n > 0 {
        assert(failed_attempts(n).drop_first() =~= failed_attempts((n - 1) as nat));
        lemma_failed_attempts_keep_idle((n - 1) as nat);
    }
}

proof fn lemma_connection_run_append(
    p: ConnectionPhase,
    a: Seq<ConnectionEvent>,
    b: Seq<ConnectionEvent>,
)
    ensures
        connection_run(p, a + b) == connection_run(connection_run(p, a), b),
    decreases a.len(),
{
    if a.len() > 0 {
        assert((a + b).drop_first() =~= a.drop_first() + b);
        lemma_connection_run_append(connection_next(p, a[0]), a.drop_first(), b);
    }
}

/// No permanent stall after the connection is torn down: once the stream
/// supply fails to open a stream it fetches a new connection; the connection
/// supply, after the old connection was delivered and any number of failed
/// attempts, offers a new one as soon as a connect and keep-alive succeed; and
/// with it the stream supply opens a stream and forwards it again.
pub proof fn lemma_recovers_after_teardown(n: nat)
    ensures
        stream_action(stream_next(StreamPhase::Opening, StreamEvent::OpenFailed))
            == StreamAction::FetchConnection,
        connection_run(
            ConnectionPhase::Offered,
            seq![ConnectionEvent::Delivered] + failed_attempts(n) + seq![
                ConnectionEvent::Connected,
                ConnectionEvent::KeepAliveEnabled,
            ],
        ) == ConnectionPhase::Offered,
        stream_run(
            StreamPhase::Opening,
            seq![StreamEvent::OpenFailed, StreamEvent::ConnectionFetched, StreamEvent::Opened],
        ) == StreamPhase::Forwarding,
        stream_action(StreamPhase::Forwarding) == StreamAction::Forward,
{
    let tail = seq![ConnectionEvent::Connected, ConnectionEvent::KeepAliveEnabled];
    let first = seq![ConnectionEvent::Delivered];
    lemma_connection_run_append(ConnectionPhase::Offered, first + failed_attempts(n), tail);
    lemma_connection_run_append(ConnectionPhase::Offered, first, failed_attempts(n));
    assert(first.drop_first() =~= Seq::<ConnectionEvent>::empty());
    lemma_failed_attempts_keep_idle(n);
    assert(connection_run(ConnectionPhase::Offered, first) == ConnectionPhase::Idle);
    assert(tail.drop_first().drop_first() =~= Seq::<ConnectionEvent>::empty());
    assert(tail.drop_first() =~= seq![ConnectionEvent::KeepAliveEnabled]);
    reveal_with_fuel(connection_run, 3);
    assert(connection_run(ConnectionPhase::Idle, tail) == ConnectionPhase::Offered);
    let s = seq![StreamEvent::OpenFailed, StreamEvent::ConnectionFetched, StreamEvent::Opened];
    assert(s.drop_first().drop_first().drop_first() =~= Seq::<StreamEvent>::empty());
    reveal_with_fuel(stream_run, 4);
}

} // verus!
