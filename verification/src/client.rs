//! The client side: planning one send, and the session's close discipline.
//!
//! A session opens one send-only stream per payload, writes the payload in
//! bounded chunks, finishes each stream, and closes the connection only after
//! every stream completed — then waits for the transport to confirm that all
//! state has drained before the process may exit. The transport writes
//! themselves happen in unverified code, which reports each outcome back as a
//! plain value.

use vstd::prelude::*;

use crate::errors::TransferError;

verus! {

/// Every chunk in the sequence carries at least one byte and stays within
/// the given size bound.
pub open spec fn chunks_within(cs: Seq<Seq<u8>>, bound: nat) -> bool {
    forall|i: int| 0 <= i < cs.len() ==> 1 <= (#[trigger] cs[i]).len() <= bound
}

/// Splits one payload into the chunks a send-only stream will carry, in
/// order: writing them back to back reproduces the payload exactly, and no
/// chunk exceeds the given bound, so the sender's buffer stays bounded.
pub fn plan_send(payload: &Vec<u8>, chunk_size: usize) -> (chunks: Vec<Vec<u8>>)
    requires
        chunk_size >= 1,
    ensures
        chunks@.map_values(|v: Vec<u8>| v@).flatten() == payload@,
        chunks_within(chunks@.map_values(|v: Vec<u8>| v@), chunk_size as nat),
{
    let mut chunks: Vec<Vec<u8>> = Vec::new();
    let mut pos: usize = 0;
    while pos < payload.len()
        invariant
            pos <= payload@.len(),
            chunk_size >= 1,
            chunks@.map_values(|v: Vec<u8>| v@).flatten() == payload@.take(pos as int),
            chunks_within(chunks@.map_values(|v: Vec<u8>| v@), chunk_size as nat),
        decreases payload@.len() - pos,
    {
        let remaining = payload.len() - pos;
        let step = if chunk_size < remaining {
            chunk_size
        } else {
            remaining
        };
        let stop = pos + step;
        let mut chunk: Vec<u8> = Vec::new();
        let mut k: usize = pos;
        while k < stop
            invariant
                pos <= k <= stop,
                stop <= payload@.len(),
                chunk@ == payload@.subrange(pos as int, k as int),
            decreases stop - k,
        {
            chunk.push(payload[k]);
            proof {
                assert(chunk@ =~= payload@.subrange(pos as int, k as int + 1));
            }
            k = k + 1;
        }
        let ghost cs = chunks@.map_values(|v: Vec<u8>| v@);
        chunks.push(chunk);
        proof {
            assert(chunks@.map_values(|v: Vec<u8>| v@) =~= cs.push(
                payload@.subrange(pos as int, pos as int + step as int),
            ));
            cs.lemma_flatten_push(payload@.subrange(pos as int, pos as int + step as int));
            assert(chunks@.map_values(|v: Vec<u8>| v@).flatten() =~= payload@.take(
                pos as int + step as int,
            ));
        }
        pos = pos + step;
    }
    proof {
        assert(payload@.take(payload@.len() as int) =~= payload@);
    }
    chunks
}

/// The verdict of one send attempt, combining the transport's two answers:
/// whether the payload was written whole, and whether the stream's finish
/// was acknowledged. Any failure is reported as `SendError`, never claimed
/// as a success.
pub fn send_outcome(write_ok: bool, finish_ok: bool) -> (r: Result<(), TransferError>)
    ensures
        r is Ok <==> write_ok && finish_ok,
        r matches Err(e) ==> e == TransferError::SendError,
{
    if write_ok && finish_ok {
        Ok(())
    } else {
        Err(TransferError::SendError)
    }
}

/// Where one client session stands.
#[derive(Clone, Copy, Debug, PartialEq, Eq, Structural)]
pub enum SessionPhase {
    /// Connected; streams may be opened and written.
    Sending,
    /// The connection was closed with the normal code; the transport has yet
    /// to confirm that all state has drained.
    Draining,
    /// The transport confirmed the drain; the process may exit. Terminal.
    Done,
}

/// One event in a client session's life.
#[derive(Clone, Copy, Debug, PartialEq, Eq, Structural)]
pub enum SessionEvent {
    /// A send-only stream was opened for one payload.
    StreamOpened,
    /// One stream's payload was written and its finish acknowledged.
    StreamFinished,
    /// The session asked the transport to close the connection normally.
    CloseRequested,
    /// The transport confirmed that all connection state has drained.
    DrainConfirmed,
}

/// One client session: tracks how many streams are in flight and whether the
/// connection may still be used, has been closed, or has fully drained.
#[derive(Clone, Copy, Debug, PartialEq, Eq, Structural)]
pub struct ClientSession {
    /// Where the session stands.
    pub phase: SessionPhase,
    /// How many opened streams have not yet finished.
    pub open_streams: usize,
}

/// One step of the session: the state after the event, or `None` where the
/// event is not enabled. Streams are opened and finished only while sending;
/// the close is requested only once no stream is in flight; and only the
/// transport's drain confirmation ends the session.
pub open spec fn session_step_fn(pre: ClientSession, event: SessionEvent) -> Option<
    ClientSession,
> {
    match event {
        SessionEvent::StreamOpened => if pre.phase is Sending && pre.open_streams < usize::MAX {
            Some(
                ClientSession {
                    phase: SessionPhase::Sending,
                    open_streams: (pre.open_streams + 1) as usize,
                },
            )
        } else {
            None
        },
        SessionEvent::StreamFinished => if pre.phase is Sending && pre.open_streams > 0 {
            Some(
                ClientSession {
                    phase: SessionPhase::Sending,
                    open_streams: (pre.open_streams - 1) as usize,
                },
            )
        } else {
            None
        },
        SessionEvent::CloseRequested => if pre.phase is Sending && pre.open_streams == 0 {
            Some(ClientSession { phase: SessionPhase::Draining, open_streams: 0 })
        } else {
            None
        },
        SessionEvent::DrainConfirmed => if pre.phase is Draining {
            Some(ClientSession { phase: SessionPhase::Done, open_streams: pre.open_streams })
        } else {
            None
        },
    }
}

/// The session's transition relation: the event is enabled and leads from
/// `pre` to `post`.
pub open spec fn session_next(
    pre: ClientSession,
    event: SessionEvent,
    post: ClientSession,
) -> bool {
    session_step_fn(pre, event) == Some(post)
}

/// A whole run of session events, each of which must be enabled in turn.
pub open spec fn session_run(s: ClientSession, events: Seq<SessionEvent>) -> Option<ClientSession>
    decreases events.len(),
{
    if events.len() == 0 {
        Some(s)
    } else {
        match session_step_fn(s, events.first()) {
            Some(s1) => session_run(s1, events.drop_first()),
            None => None,
        }
    }
}

/// Only once the session is done may the process exit without risking an
/// abrupt termination being observed by the peer.
pub open spec fn may_exit(s: ClientSession) -> bool {
    s.phase is Done
}

impl ClientSession {
    /// A freshly connected session: sending, with no stream in flight.
    pub fn new() -> (r: ClientSession)
        ensures
            r.phase is Sending,
            r.open_streams == 0,
    {
        ClientSession { phase: SessionPhase::Sending, open_streams: 0 }
    }

    /// Records that one send-only stream was opened.
    pub fn open_stream(&mut self)
        requires
            old(self).phase is Sending,
            old(self).open_streams < usize::MAX,
        ensures
            session_next(*old(self), SessionEvent::StreamOpened, *final(self)),
            final(self).open_streams == old(self).open_streams + 1,
    {
        self.open_streams = self.open_streams + 1;
    }

    /// Records that one stream's payload was written whole and its finish
    /// acknowledged by the transport.
    pub fn stream_finished(&mut self)
        requires
            old(self).phase is Sending,
            old(self).open_streams > 0,
        ensures
            session_next(*old(self), SessionEvent::StreamFinished, *final(self)),
            final(self).open_streams == old(self).open_streams - 1,
    {
        self.open_streams = self.open_streams - 1;
    }

    /// Records the normal close of the connection. Demands that every opened
    /// stream has finished: closing earlier would cut in-flight streams off.
    pub fn request_close(&mut self)
        requires
            old(self).phase is Sending,
            old(self).open_streams == 0,
        ensures
            session_next(*old(self), SessionEvent::CloseRequested, *final(self)),
            final(self).phase is Draining,
    {
        self.phase = SessionPhase::Draining;
    }

    /// Records the transport's confirmation that all connection state has
    /// drained; only now may the process exit.
    pub fn confirm_drained(&mut self)
        requires
            old(self).phase is Draining,
        ensures
            session_next(*old(self), SessionEvent::DrainConfirmed, *final(self)),
            may_exit(*final(self)),
    {
        self.phase = SessionPhase::Done;
    }
}

/// Exit is gated on the drain: the only transition into the exit-safe state
/// is the transport's drain confirmation, taken from the draining state —
/// never straight from a send, and never before the close was requested.
pub proof fn lemma_exit_only_after_drain(
    pre: ClientSession,
    event: SessionEvent,
    post: ClientSession,
)
    requires
        session_next(pre, event, post),
        !may_exit(pre),
        may_exit(post),
    ensures
        event is DrainConfirmed,
        pre.phase is Draining,
{
}

/// The close is requested only once every stream the session opened has
/// finished: no stream is in flight when the connection goes down.
pub proof fn lemma_close_only_when_idle(pre: ClientSession, event: SessionEvent, post: ClientSession)
    requires
        session_next(pre, event, post),
        pre.phase is Sending,
        post.phase is Draining,
    ensures
        event is CloseRequested,
        pre.open_streams == 0,
{
}

/// A finished session is terminal: no event moves it anywhere.
pub proof fn lemma_done_terminal(pre: ClientSession, event: SessionEvent, post: ClientSession)
    requires
        may_exit(pre),
    ensures
        !session_next(pre, event, post),
{
}

/// Any run of enabled events that ends exit-safe passed through the
/// transport's drain confirmation: there is no way out that skips it.
pub proof fn lemma_run_to_exit_confirms_drain(
    s: ClientSession,
    events: Seq<SessionEvent>,
    end: ClientSession,
)
    requires
        session_run(s, events) == Some(end),
        !may_exit(s),
        may_exit(end),
    ensures
        exists|i: int|
            0 <= i < events.len() && events[i] == SessionEvent::DrainConfirmed,
    decreases events.len(),
{
    assert(events.len() > 0);
    let first = events.first();
    let s1 = session_step_fn(s, first).get_Some_0();
    if may_exit(s1) {
        lemma_exit_only_after_drain(s, first, s1);
        assert(events[0] == SessionEvent::DrainConfirmed);
    } else {
        lemma_run_to_exit_confirms_drain(s1, events.drop_first(), end);
        let i = choose|i: int|
            0 <= i < events.drop_first().len() && events.drop_first()[i]
                == SessionEvent::DrainConfirmed;
        assert(events[i + 1] == SessionEvent::DrainConfirmed);
    }
}

/// From a sending session, any run of enabled events that ends exit-safe
/// requested the close — a transition enabled only with no stream in flight —
/// and the transport's drain confirmation came only after that request: the
/// process never exits before the close has been requested and confirmed
/// drained, so nothing is lost to a fast exit.
pub proof fn lemma_close_precedes_drain(
    s: ClientSession,
    events: Seq<SessionEvent>,
    end: ClientSession,
)
    requires
        session_run(s, events) == Some(end),
        s.phase is Sending,
        may_exit(end),
    ensures
        exists|i: int, j: int|
            0 <= i < j < events.len() && events[i] == SessionEvent::CloseRequested && events[j]
                == SessionEvent::DrainConfirmed,
    decreases events.len(),
{
    assert(events.len() > 0);
    let first = events.first();
    let s1 = session_step_fn(s, first).get_Some_0();
    match first {
        SessionEvent::StreamOpened | SessionEvent::StreamFinished => {
            lemma_close_precedes_drain(s1, events.drop_first(), end);
            let (i, j) = choose|i: int, j: int|
                0 <= i < j < events.drop_first().len() && events.drop_first()[i]
                    == SessionEvent::CloseRequested && events.drop_first()[j]
                    == SessionEvent::DrainConfirmed;
            assert(events[i + 1] == SessionEvent::CloseRequested);
            assert(events[j + 1] == SessionEvent::DrainConfirmed);
        },
        SessionEvent::CloseRequested => {
            lemma_run_to_exit_confirms_drain(s1, events.drop_first(), end);
            let j = choose|j: int|
                0 <= j < events.drop_first().len() && events.drop_first()[j]
                    == SessionEvent::DrainConfirmed;
            assert(events[0] == SessionEvent::CloseRequested);
            assert(events[j + 1] == SessionEvent::DrainConfirmed);
        },
        SessionEvent::DrainConfirmed => {
            assert(false);
        },
    }
}

} // verus!
