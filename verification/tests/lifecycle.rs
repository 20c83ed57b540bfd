//! Lifecycle behaviour: the accept loops, the client session, the identity.

use filepipe::client::send_outcome;
use filepipe::client::ClientSession;
use filepipe::client::SessionPhase;
use filepipe::errors::TransferError;
use filepipe::identity::generate_identity;
use filepipe::server::connection_step;
use filepipe::server::endpoint_step;
use filepipe::server::run_connection;
use filepipe::server::run_endpoint;
use filepipe::server::ConnAction;
use filepipe::server::ConnEvent;
use filepipe::server::ConnPhase;
use filepipe::server::EndpointAction;
use filepipe::server::EndpointEvent;
use filepipe::server::EndpointPhase;
use filepipe::server::TransferConfig;
use filepipe::server::DEFAULT_PORT;
use filepipe::sink::handle_stream;
use filepipe::sink::SinkLog;
use filepipe::stream::StreamEnd;

#[test]
fn endpoint_spawns_handler_per_good_handshake() {
    let (phase, action) = endpoint_step(
        EndpointPhase::Listening,
        EndpointEvent::ConnectionAttempt { handshake_ok: true },
    );
    assert_eq!(phase, EndpointPhase::Listening);
    assert_eq!(action, EndpointAction::SpawnConnectionHandler);
}

#[test]
fn endpoint_survives_failed_handshake() {
    let (phase, action) = endpoint_step(
        EndpointPhase::Listening,
        EndpointEvent::ConnectionAttempt { handshake_ok: false },
    );
    assert_eq!(phase, EndpointPhase::Listening);
    assert_eq!(
        action,
        EndpointAction::RejectConnection { error: TransferError::HandshakeError }
    );
}

#[test]
fn endpoint_stays_stopped_once_closed() {
    let (phase, action) = endpoint_step(EndpointPhase::Listening, EndpointEvent::EndpointClosed);
    assert_eq!(phase, EndpointPhase::Stopped);
    assert_eq!(action, EndpointAction::Stop);
    let (phase, action) = endpoint_step(
        EndpointPhase::Stopped,
        EndpointEvent::ConnectionAttempt { handshake_ok: true },
    );
    assert_eq!(phase, EndpointPhase::Stopped);
    assert_eq!(action, EndpointAction::Stop);
}

#[test]
fn connection_dispatches_each_stream_and_stays_open() {
    let (phase, action) = connection_step(ConnPhase::Open, ConnEvent::StreamOpened);
    assert_eq!(phase, ConnPhase::Open);
    assert_eq!(action, ConnAction::SpawnStreamHandler);
}

#[test]
fn connection_logs_recoverable_accept_error() {
    let (phase, action) = connection_step(ConnPhase::Open, ConnEvent::AcceptFailed { fatal: false });
    assert_eq!(phase, ConnPhase::Open);
    assert_eq!(
        action,
        ConnAction::LogAndContinue { error: TransferError::StreamAcceptError }
    );
}

#[test]
fn connection_closes_on_fatal_accept_error() {
    let (phase, action) = connection_step(ConnPhase::Open, ConnEvent::AcceptFailed { fatal: true });
    assert_eq!(phase, ConnPhase::Closing);
    assert_eq!(
        action,
        ConnAction::ReportClosure { cause: Some(TransferError::StreamAcceptError) }
    );
}

#[test]
fn connection_reports_remote_close_then_ends() {
    let (phase, action) = connection_step(ConnPhase::Open, ConnEvent::RemoteClosed);
    assert_eq!(phase, ConnPhase::Closing);
    assert_eq!(action, ConnAction::ReportClosure { cause: None });
    let (phase, action) = connection_step(phase, ConnEvent::StreamOpened);
    assert_eq!(phase, ConnPhase::Closed);
    assert_eq!(action, ConnAction::Ignore);
    let (phase, _) = connection_step(phase, ConnEvent::StreamOpened);
    assert_eq!(phase, ConnPhase::Closed);
}

#[test]
fn connection_run_dispatches_nothing_after_close() {
    let events = vec![
        ConnEvent::StreamOpened,
        ConnEvent::AcceptFailed { fatal: false },
        ConnEvent::StreamOpened,
        ConnEvent::RemoteClosed,
        ConnEvent::StreamOpened,
    ];
    let (phase, actions) = run_connection(&events);
    assert_eq!(phase, ConnPhase::Closed);
    assert_eq!(
        actions,
        vec![
            ConnAction::SpawnStreamHandler,
            ConnAction::LogAndContinue { error: TransferError::StreamAcceptError },
            ConnAction::SpawnStreamHandler,
            ConnAction::ReportClosure { cause: None },
            ConnAction::Ignore,
        ]
    );
}

#[test]
fn endpoint_run_spawns_nothing_after_stop() {
    let events = vec![
        EndpointEvent::ConnectionAttempt { handshake_ok: true },
        EndpointEvent::ConnectionAttempt { handshake_ok: false },
        EndpointEvent::EndpointClosed,
        EndpointEvent::ConnectionAttempt { handshake_ok: true },
    ];
    let (phase, actions) = run_endpoint(&events);
    assert_eq!(phase, EndpointPhase::Stopped);
    assert_eq!(
        actions,
        vec![
            EndpointAction::SpawnConnectionHandler,
            EndpointAction::RejectConnection { error: TransferError::HandshakeError },
            EndpointAction::Stop,
            EndpointAction::Stop,
        ]
    );
}

#[test]
fn stream_window_of_one_does_not_corrupt_first_stream() {
    // A server configured to admit one concurrent stream per connection: the
    // transport queues or rejects a second stream; the handler logs the
    // rejection and the first stream still completes byte for byte.
    let config = TransferConfig::new(1, 1024);
    assert_eq!(config.max_concurrent_streams, 1);
    assert_eq!(config.port, DEFAULT_PORT);

    let (phase, action) = connection_step(ConnPhase::Open, ConnEvent::StreamOpened);
    assert_eq!(action, ConnAction::SpawnStreamHandler);
    // The transport refuses the second stream while the first is open.
    let (phase, action) = connection_step(phase, ConnEvent::AcceptFailed { fatal: false });
    assert_eq!(phase, ConnPhase::Open);
    assert_eq!(
        action,
        ConnAction::LogAndContinue { error: TransferError::StreamAcceptError }
    );
    // The first stream drains untouched.
    let mut sink = SinkLog::new();
    let chunks = vec![b"first".to_vec()];
    let report = handle_stream(&chunks, StreamEnd::Finished, config.max_payload, true, &mut sink);
    assert_eq!(report, Ok(5));
    assert_eq!(sink.entry(0), &b"first".to_vec());
}

#[test]
fn session_exits_only_after_drain_confirmed() {
    let mut s = ClientSession::new();
    assert_eq!(s.phase, SessionPhase::Sending);
    s.open_stream();
    s.open_stream();
    assert_eq!(s.open_streams, 2);
    s.stream_finished();
    s.stream_finished();
    assert_eq!(s.open_streams, 0);
    s.request_close();
    assert_eq!(s.phase, SessionPhase::Draining);
    s.confirm_drained();
    assert_eq!(s.phase, SessionPhase::Done);
}

#[test]
fn send_outcome_never_claims_silent_success() {
    assert_eq!(send_outcome(true, true), Ok(()));
    assert_eq!(send_outcome(false, true), Err(TransferError::SendError));
    assert_eq!(send_outcome(true, false), Err(TransferError::SendError));
    assert_eq!(send_outcome(false, false), Err(TransferError::SendError));
}

#[test]
fn generated_identity_has_certificate_and_key() {
    let identity = generate_identity("localhost").expect("identity generation failed");
    assert!(!identity.certificate.is_empty());
    assert!(!identity.private_key.is_empty());
}
