//! The server side: the endpoint accept loop and the per-connection stream
//! accept loop, as state machines.
//!
//! The transport work itself — binding the socket, awaiting the next
//! connection or stream — happens in unverified code, which feeds each
//! transport event to the step functions here and performs the action they
//! return. The step functions hold the whole decision logic: what to spawn,
//! what to log, and when a loop is over.

use vstd::prelude::*;

use crate::errors::TransferError;

verus! {

/// The listening port the service uses when none is chosen.
pub const DEFAULT_PORT: u16 = 33333;

/// How many unidirectional streams one connection may have open at once when
/// no other bound is chosen. Exceeding the bound is rejected by the transport
/// layer itself, never by the logic here.
pub const DEFAULT_STREAM_WINDOW: u32 = 0xFF;

/// What one server endpoint is configured with before it binds.
#[derive(Clone, Copy, Debug, PartialEq, Eq, Structural)]
pub struct TransferConfig {
    /// The port the endpoint listens on.
    pub port: u16,
    /// The bound on concurrently open unidirectional streams per connection.
    pub max_concurrent_streams: u32,
    /// The per-stream payload ceiling, in bytes.
    pub max_payload: usize,
}

impl TransferConfig {
    /// A configuration with the given stream bound and payload ceiling, on
    /// the default port.
    pub fn new(max_concurrent_streams: u32, max_payload: usize) -> (r: TransferConfig)
        ensures
            r.port == DEFAULT_PORT,
            r.max_concurrent_streams == max_concurrent_streams,
            r.max_payload == max_payload,
    {
        TransferConfig { port: DEFAULT_PORT, max_concurrent_streams, max_payload }
    }
}

/// What the endpoint accept loop is doing.
#[derive(Clone, Copy, Debug, PartialEq, Eq, Structural)]
pub enum EndpointPhase {
    /// Bound and accepting connection attempts.
    Listening,
    /// The endpoint was closed; nothing further is accepted. Terminal.
    Stopped,
}

/// One event the transport hands the endpoint accept loop.
#[derive(Clone, Copy, Debug, PartialEq, Eq, Structural)]
pub enum EndpointEvent {
    /// An inbound connection attempt ran its handshake to a verdict.
    ConnectionAttempt { handshake_ok: bool },
    /// The endpoint itself was closed; it yields nothing further.
    EndpointClosed,
}

/// What the endpoint accept loop does in response to one event.
#[derive(Clone, Copy, Debug, PartialEq, Eq, Structural)]
pub enum EndpointAction {
    /// Hand the new connection to a freshly spawned connection handler and
    /// continue accepting at once.
    SpawnConnectionHandler,
    /// Log the failed handshake and continue; one rejected connection never
    /// stops the endpoint.
    RejectConnection { error: TransferError },
    /// Leave the accept loop.
    Stop,
}

/// The endpoint accept loop's transition function: a completed handshake
/// spawns a handler, a failed one is logged and dropped, and a closed
/// endpoint stops for good.
pub open spec fn endpoint_next(phase: EndpointPhase, event: EndpointEvent) -> (
    EndpointPhase,
    EndpointAction,
) {
    match phase {
        EndpointPhase::Listening => match event {
            EndpointEvent::ConnectionAttempt { handshake_ok } => if handshake_ok {
                (EndpointPhase::Listening, EndpointAction::SpawnConnectionHandler)
            } else {
                (
                    EndpointPhase::Listening,
                    EndpointAction::RejectConnection { error: TransferError::HandshakeError },
                )
            },
            EndpointEvent::EndpointClosed => (EndpointPhase::Stopped, EndpointAction::Stop),
        },
        EndpointPhase::Stopped => (EndpointPhase::Stopped, EndpointAction::Stop),
    }
}

/// Advances the endpoint accept loop by one transport event.
pub fn endpoint_step(phase: EndpointPhase, event: EndpointEvent) -> (r: (
    EndpointPhase,
    EndpointAction,
))
    ensures
        r == endpoint_next(phase, event),
{
    match phase {
        EndpointPhase::Listening => match event {
            EndpointEvent::ConnectionAttempt { handshake_ok } => {
                if handshake_ok {
                    (EndpointPhase::Listening, EndpointAction::SpawnConnectionHandler)
                } else {
                    (
                        EndpointPhase::Listening,
                        EndpointAction::RejectConnection { error: TransferError::HandshakeError },
                    )
                }
            },
            EndpointEvent::EndpointClosed => (EndpointPhase::Stopped, EndpointAction::Stop),
        },
        EndpointPhase::Stopped => (EndpointPhase::Stopped, EndpointAction::Stop),
    }
}

/// A stopped endpoint yields nothing further: no event ever makes it listen
/// or spawn again.
pub proof fn lemma_endpoint_stopped_terminal(event: EndpointEvent)
    ensures
        endpoint_next(EndpointPhase::Stopped, event).0 == EndpointPhase::Stopped,
        endpoint_next(EndpointPhase::Stopped, event).1 == EndpointAction::Stop,
{
}

/// A failed handshake is contained: the endpoint keeps listening, reports
/// `HandshakeError`, and spawns nothing for the rejected connection.
pub proof fn lemma_handshake_failure_contained()
    ensures
        endpoint_next(
            EndpointPhase::Listening,
            EndpointEvent::ConnectionAttempt { handshake_ok: false },
        ) == (
            EndpointPhase::Listening,
            EndpointAction::RejectConnection { error: TransferError::HandshakeError },
        ),
{
}

/// The endpoint phase after a prefix of events, starting from `phase0`.
pub open spec fn endpoint_phase_after(
    phase0: EndpointPhase,
    events: Seq<EndpointEvent>,
) -> EndpointPhase
    decreases events.len(),
{
    if events.len() == 0 {
        phase0
    } else {
        endpoint_next(endpoint_phase_after(phase0, events.drop_last()), events.last()).0
    }
}

/// The action the accept loop takes on the event at position `i` of a run
/// that starts from `phase0`.
pub open spec fn endpoint_action_at(
    phase0: EndpointPhase,
    events: Seq<EndpointEvent>,
    i: int,
) -> EndpointAction {
    endpoint_next(endpoint_phase_after(phase0, events.take(i)), events[i]).1
}

/// Replays a whole run of the endpoint accept loop: each event steps the
/// machine once, from a freshly bound endpoint, and the action taken for
/// each event is recorded in order.
pub fn run_endpoint(events: &Vec<EndpointEvent>) -> (r: (EndpointPhase, Vec<EndpointAction>))
    ensures
        r.0 == endpoint_phase_after(EndpointPhase::Listening, events@),
        r.1@.len() == events@.len(),
        forall|i: int|
            0 <= i < events@.len() ==> r.1@[i] == endpoint_action_at(
                EndpointPhase::Listening,
                events@,
                i,
            ),
{
    let mut phase = EndpointPhase::Listening;
    let mut actions: Vec<EndpointAction> = Vec::new();
    let mut i: usize = 0;
    while i < events.len()
        invariant
            i <= events@.len(),
            actions@.len() == i as int,
            phase == endpoint_phase_after(EndpointPhase::Listening, events@.take(i as int)),
            forall|j: int|
                0 <= j < i as int ==> actions@[j] == endpoint_action_at(
                    EndpointPhase::Listening,
                    events@,
                    j,
                ),
        decreases events@.len() - i,
    {
        let (next, action) = endpoint_step(phase, events[i]);
        actions.push(action);
        proof {
            assert(events@.take(i as int + 1).drop_last() =~= events@.take(i as int));
            assert(events@.take(i as int + 1).last() == events@[i as int]);
        }
        phase = next;
        i = i + 1;
    }
    proof {
        assert(events@.take(events@.len() as int) =~= events@);
    }
    (phase, actions)
}

/// Leaving `Listening` is final: no event brings the endpoint back.
pub proof fn lemma_listening_never_reentered(phase: EndpointPhase, event: EndpointEvent)
    ensures
        phase != EndpointPhase::Listening ==> endpoint_next(phase, event).0
            != EndpointPhase::Listening,
{
}

/// Once the endpoint has stopped, no later event in the run ever spawns
/// another connection handler.
pub proof fn lemma_no_spawn_after_stop(events: Seq<EndpointEvent>, i: int, j: int)
    requires
        0 <= i <= j < events.len(),
        endpoint_phase_after(EndpointPhase::Listening, events.take(i)) != EndpointPhase::Listening,
    ensures
        endpoint_action_at(EndpointPhase::Listening, events, j)
            != EndpointAction::SpawnConnectionHandler,
    decreases j - i,
{
    if i == j {
    } else {
        assert(events.take(i + 1).drop_last() =~= events.take(i));
        assert(events.take(i + 1).last() == events[i]);
        lemma_listening_never_reentered(
            endpoint_phase_after(EndpointPhase::Listening, events.take(i)),
            events[i],
        );
        lemma_no_spawn_after_stop(events, i + 1, j);
    }
}

/// Where one accepted connection's stream loop stands.
#[derive(Clone, Copy, Debug, PartialEq, Eq, Structural)]
pub enum ConnPhase {
    /// Accepting incoming streams.
    Open,
    /// A close notice or an unrecoverable accept error arrived; the closure
    /// is being reported.
    Closing,
    /// The loop is over. Terminal: no further accept call is issued.
    Closed,
}

/// One event the transport hands a connection handler.
#[derive(Clone, Copy, Debug, PartialEq, Eq, Structural)]
pub enum ConnEvent {
    /// The remote peer opened a unidirectional stream.
    StreamOpened,
    /// Accepting the next stream failed; `fatal` says whether the connection
    /// itself is no longer usable.
    AcceptFailed { fatal: bool },
    /// The remote peer closed the connection.
    RemoteClosed,
}

/// What a connection handler does in response to one event.
#[derive(Clone, Copy, Debug, PartialEq, Eq, Structural)]
pub enum ConnAction {
    /// Hand the new stream to a freshly spawned stream handler and continue
    /// accepting at once; the handler never waits for a stream to complete.
    SpawnStreamHandler,
    /// Log the recoverable accept error and continue.
    LogAndContinue { error: TransferError },
    /// Report the closure, with the error that caused it if any; in-flight
    /// stream handlers are not cancelled and drain on their own.
    ReportClosure { cause: Option<TransferError> },
    /// Nothing remains to be done.
    Ignore,
}

/// The connection handler's transition function: each accepted stream is
/// dispatched without waiting on it; a recoverable accept error is logged;
/// a remote close or an unrecoverable error moves the handler to `Closing`,
/// whence it reports and closes for good.
pub open spec fn connection_next(phase: ConnPhase, event: ConnEvent) -> (ConnPhase, ConnAction) {
    match phase {
        ConnPhase::Open => match event {
            ConnEvent::StreamOpened => (ConnPhase::Open, ConnAction::SpawnStreamHandler),
            ConnEvent::AcceptFailed { fatal } => if fatal {
                (
                    ConnPhase::Closing,
                    ConnAction::ReportClosure { cause: Some(TransferError::StreamAcceptError) },
                )
            } else {
                (
                    ConnPhase::Open,
                    ConnAction::LogAndContinue { error: TransferError::StreamAcceptError },
                )
            },
            ConnEvent::RemoteClosed => (
                ConnPhase::Closing,
                ConnAction::ReportClosure { cause: None },
            ),
        },
        ConnPhase::Closing => (ConnPhase::Closed, ConnAction::Ignore),
        ConnPhase::Closed => (ConnPhase::Closed, ConnAction::Ignore),
    }
}

/// Advances one connection's stream loop by one transport event.
pub fn connection_step(phase: ConnPhase, event: ConnEvent) -> (r: (ConnPhase, ConnAction))
    ensures
        r == connection_next(phase, event),
{
    match phase {
        ConnPhase::Open => match event {
            ConnEvent::StreamOpened => (ConnPhase::Open, ConnAction::SpawnStreamHandler),
            ConnEvent::AcceptFailed { fatal } => {
                if fatal {
                    (
                        ConnPhase::Closing,
                        ConnAction::ReportClosure {
                            cause: Some(TransferError::StreamAcceptError),
                        },
                    )
                } else {
                    (
                        ConnPhase::Open,
                        ConnAction::LogAndContinue { error: TransferError::StreamAcceptError },
                    )
                }
            },
            ConnEvent::RemoteClosed => (
                ConnPhase::Closing,
                ConnAction::ReportClosure { cause: None },
            ),
        },
        ConnPhase::Closing => (ConnPhase::Closed, ConnAction::Ignore),
        ConnPhase::Closed => (ConnPhase::Closed, ConnAction::Ignore),
    }
}

/// A closed connection stays closed: no event reopens it.
pub proof fn lemma_connection_closed_terminal(event: ConnEvent)
    ensures
        connection_next(ConnPhase::Closed, event).0 == ConnPhase::Closed,
{
}

/// A stream handler is spawned only while the connection is open, and only
/// for a stream the remote peer actually opened.
pub proof fn lemma_spawn_only_while_open(phase: ConnPhase, event: ConnEvent)
    ensures
        connection_next(phase, event).1 == ConnAction::SpawnStreamHandler ==> phase
            == ConnPhase::Open && event == ConnEvent::StreamOpened,
{
}

/// The connection phase after a prefix of events, starting from `phase0`.
pub open spec fn conn_phase_after(phase0: ConnPhase, events: Seq<ConnEvent>) -> ConnPhase
    decreases events.len(),
{
    if events.len() == 0 {
        phase0
    } else {
        connection_next(conn_phase_after(phase0, events.drop_last()), events.last()).0
    }
}

/// The action the handler takes on the event at position `i` of a run that
/// starts from `phase0`.
pub open spec fn conn_action_at(phase0: ConnPhase, events: Seq<ConnEvent>, i: int) -> ConnAction {
    connection_next(conn_phase_after(phase0, events.take(i)), events[i]).1
}

/// Replays a whole run of one connection's stream loop: each event steps the
/// machine once, from a freshly accepted connection, and the action taken
/// for each event is recorded in order.
pub fn run_connection(events: &Vec<ConnEvent>) -> (r: (ConnPhase, Vec<ConnAction>))
    ensures
        r.0 == conn_phase_after(ConnPhase::Open, events@),
        r.1@.len() == events@.len(),
        forall|i: int|
            0 <= i < events@.len() ==> r.1@[i] == conn_action_at(ConnPhase::Open, events@, i),
{
    let mut phase = ConnPhase::Open;
    let mut actions: Vec<ConnAction> = Vec::new();
    let mut i: usize = 0;
    while i < events.len()
        invariant
            i <= events@.len(),
            actions@.len() == i as int,
            phase == conn_phase_after(ConnPhase::Open, events@.take(i as int)),
            forall|j: int|
                0 <= j < i as int ==> actions@[j] == conn_action_at(ConnPhase::Open, events@, j),
        decreases events@.len() - i,
    {
        let (next, action) = connection_step(phase, events[i]);
        actions.push(action);
        proof {
            assert(events@.take(i as int + 1).drop_last() =~= events@.take(i as int));
            assert(events@.take(i as int + 1).last() == events@[i as int]);
        }
        phase = next;
        i = i + 1;
    }
    proof {
        assert(events@.take(events@.len() as int) =~= events@);
    }
    (phase, actions)
}

/// Leaving `Open` is final: no event brings the handler back to accepting.
pub proof fn lemma_open_never_reentered(phase: ConnPhase, event: ConnEvent)
    ensures
        phase != ConnPhase::Open ==> connection_next(phase, event).0 != ConnPhase::Open,
{
}

/// Once the handler has left `Open` — the connection closed or failed — no
/// later event in the run ever dispatches another stream handler.
pub proof fn lemma_no_dispatch_after_closure(events: Seq<ConnEvent>, i: int, j: int)
    requires
        0 <= i <= j < events.len(),
        conn_phase_after(ConnPhase::Open, events.take(i)) != ConnPhase::Open,
    ensures
        conn_action_at(ConnPhase::Open, events, j) != ConnAction::SpawnStreamHandler,
    decreases j - i,
{
    if i == j {
        lemma_spawn_only_while_open(conn_phase_after(ConnPhase::Open, events.take(j)), events[j]);
    } else {
        assert(events.take(i + 1).drop_last() =~= events.take(i));
        assert(events.take(i + 1).last() == events[i]);
        lemma_open_never_reentered(
            conn_phase_after(ConnPhase::Open, events.take(i)),
            events[i],
        );
        lemma_no_dispatch_after_closure(events, i + 1, j);
    }
}

} // verus!
