//! Bounded draining of one receive-only stream.
//!
//! A stream's bytes count as a valid transfer only when the sender finished
//! cleanly, the total stayed within the configured ceiling, and the owning
//! connection did not terminate first. The model here is a fold over the
//! chunks the transport delivers, in arrival order.

use vstd::prelude::*;
use vstd::seq_lib::lemma_flatten_concat;

use crate::errors::TransferError;

verus! {

/// How a stream terminated, from the receiver's point of view.
#[derive(Clone, Copy, Debug, PartialEq, Eq, Structural)]
pub enum StreamEnd {
    /// The sender signalled end-of-data and the transport delivered all of it.
    Finished,
    /// The owning connection terminated before the sender finished.
    ConnectionClosed,
}

/// The mathematical state of one stream being drained.
pub ghost struct ReaderModel {
    /// Bytes accepted so far, in arrival order.
    pub received: Seq<u8>,
    /// The configured payload ceiling, in bytes.
    pub max: nat,
    /// Whether the ceiling was exceeded; the partial data is then discarded.
    pub failed: bool,
}

/// Well-formedness of a reader state: the accepted bytes never exceed the
/// ceiling, and an abandoned stream retains no partial data.
pub open spec fn model_wf(m: ReaderModel) -> bool {
    &&& m.received.len() <= m.max
    &&& m.failed ==> m.received.len() == 0
}

/// The state of a fresh reader for a given ceiling.
pub open spec fn reader_init(max: nat) -> ReaderModel {
    ReaderModel { received: Seq::empty(), max, failed: false }
}

/// One chunk arriving at a reader. A chunk that would lift the total over
/// the ceiling abandons the stream: nothing of it is kept.
pub open spec fn model_push(m: ReaderModel, chunk: Seq<u8>) -> ReaderModel {
    if m.failed {
        m
    } else if m.received.len() + chunk.len() > m.max {
        ReaderModel { received: Seq::empty(), max: m.max, failed: true }
    } else {
        ReaderModel { received: m.received + chunk, max: m.max, failed: false }
    }
}

/// A whole sequence of chunks arriving at a reader, in order.
pub open spec fn model_run(m: ReaderModel, chunks: Seq<Seq<u8>>) -> ReaderModel
    decreases chunks.len(),
{
    if chunks.len() == 0 {
        m
    } else {
        model_run(model_push(m, chunks.first()), chunks.drop_first())
    }
}

/// What draining a full stream transcript yields: the concatenated payload
/// when the sender finished within the ceiling; `PayloadTooLarge` when the
/// total exceeds the ceiling; `ConnectionLost` when the connection
/// terminated before the sender finished.
pub open spec fn drain_model(chunks: Seq<Seq<u8>>, end: StreamEnd, max: nat) -> Result<
    Seq<u8>,
    TransferError,
> {
    if chunks.flatten().len() > max {
        Err(TransferError::PayloadTooLarge)
    } else if end is ConnectionClosed {
        Err(TransferError::ConnectionLost)
    } else {
        Ok(chunks.flatten())
    }
}

/// The byte-level reading of an executable drain result.
pub open spec fn result_bytes(r: Result<Vec<u8>, TransferError>) -> Result<
    Seq<u8>,
    TransferError,
> {
    match r {
        Ok(v) => Ok(v@),
        Err(e) => Err(e),
    }
}

/// Drains one receive-only stream, enforcing the payload ceiling.
pub struct StreamReader {
    buf: Vec<u8>,
    max_size: usize,
    failed: bool,
}

impl View for StreamReader {
    type V = ReaderModel;

    closed spec fn view(&self) -> ReaderModel {
        ReaderModel { received: self.buf@, max: self.max_size as nat, failed: self.failed }
    }
}

impl StreamReader {
    /// A fresh reader for one stream, with the given ceiling.
    pub fn new(max_size: usize) -> (r: StreamReader)
        ensures
            r@ == reader_init(max_size as nat),
            model_wf(r@),
    {
        StreamReader { buf: Vec::new(), max_size, failed: false }
    }

    /// Accepts the next chunk the transport delivered. A chunk that would
    /// lift the total over the ceiling abandons the stream: the partial data
    /// is discarded and every later chunk is refused.
    pub fn push_chunk(&mut self, chunk: &[u8]) -> (r: Result<(), TransferError>)
        requires
            model_wf(old(self)@),
        ensures
            model_wf(final(self)@),
            final(self)@ == model_push(old(self)@, chunk@),
            r is Ok <==> (!old(self)@.failed && old(self)@.received.len() + chunk@.len()
                <= old(self)@.max),
            r matches Err(e) ==> e == TransferError::PayloadTooLarge,
    {
        if self.failed {
            return Err(TransferError::PayloadTooLarge);
        }
        if chunk.len() > self.max_size - self.buf.len() {
            self.buf = Vec::new();
            self.failed = true;
            return Err(TransferError::PayloadTooLarge);
        }
        let mut i: usize = 0;
        while i < chunk.len()
            invariant
                i <= chunk@.len(),
                self.buf@ == old(self)@.received + chunk@.take(i as int),
                self.max_size == old(self).max_size,
                self.failed == false,
                old(self)@.received.len() + chunk@.len() <= self.max_size,
            decreases chunk@.len() - i,
        {
            self.buf.push(chunk[i]);
            proof {
                assert(self.buf@ =~= old(self)@.received + chunk@.take(i as int + 1));
            }
            i = i + 1;
        }
        proof {
            assert(self.buf@ =~= old(self)@.received + chunk@);
        }
        Ok(())
    }

    /// Completes a cleanly finished stream, yielding the full payload.
    pub fn finish(self) -> (r: Vec<u8>)
        requires
            !self@.failed,
        ensures
            r@ == self@.received,
    {
        self.buf
    }
}

/// Reads one stream transcript to completion: every chunk in arrival order,
/// then the way the stream ended. Yields exactly what `drain_model` says.
pub fn drain_transcript(chunks: &Vec<Vec<u8>>, end: StreamEnd, max_size: usize) -> (r: Result<
    Vec<u8>,
    TransferError,
>)
    ensures
        result_bytes(r) == drain_model(
            chunks@.map_values(|v: Vec<u8>| v@),
            end,
            max_size as nat,
        ),
{
    let ghost cs = chunks@.map_values(|v: Vec<u8>| v@);
    let mut reader = StreamReader::new(max_size);
    let mut i: usize = 0;
    while i < chunks.len()
        invariant
            i <= chunks@.len(),
            cs == chunks@.map_values(|v: Vec<u8>| v@),
            reader@.max == max_size as nat,
            reader@.failed == false,
            reader@.received == cs.take(i as int).flatten(),
            reader@.received.len() <= max_size,
        decreases chunks@.len() - i,
    {
        let res = reader.push_chunk(chunks[i].as_slice());
        proof {
            assert(cs.take(i as int + 1) =~= cs.take(i as int).push(cs[i as int]));
            cs.take(i as int).lemma_flatten_push(cs[i as int]);
        }
        if res.is_err() {
            proof {
                lemma_flatten_prefix_len(cs, i as int + 1);
            }
            return Err(TransferError::PayloadTooLarge);
        }
        i = i + 1;
    }
    proof {
        assert(cs.take(cs.len() as int) =~= cs);
    }
    match end {
        StreamEnd::Finished => Ok(reader.finish()),
        StreamEnd::ConnectionClosed => Err(TransferError::ConnectionLost),
    }
}

/// The total of a prefix of the chunks never exceeds the total of them all.
pub proof fn lemma_flatten_prefix_len(s: Seq<Seq<u8>>, i: int)
    requires
        0 <= i <= s.len(),
    ensures
        s.take(i).flatten().len() <= s.flatten().len(),
{
    assert(s =~= s.take(i) + s.skip(i));
    lemma_flatten_concat(s.take(i), s.skip(i));
}

/// A reader that has abandoned its stream stays abandoned, whatever arrives.
pub proof fn lemma_model_run_failed(m: ReaderModel, chunks: Seq<Seq<u8>>)
    requires
        m.failed,
    ensures
        model_run(m, chunks) == m,
    decreases chunks.len(),
{
    if chunks.len() > 0 {
        lemma_model_run_failed(m, chunks.drop_first());
    }
}

/// Round-trip fidelity at the reader level: a payload whose total fits the
/// remaining room is accepted whole, byte for byte, whatever the chunking.
pub proof fn lemma_model_run_fits(m: ReaderModel, chunks: Seq<Seq<u8>>)
    requires
        !m.failed,
        m.received.len() + chunks.flatten().len() <= m.max,
    ensures
        model_run(m, chunks) == (ReaderModel {
            received: m.received + chunks.flatten(),
            max: m.max,
            failed: false,
        }),
    decreases chunks.len(),
{
    if chunks.len() == 0 {
        assert(chunks.flatten() =~= Seq::<u8>::empty());
        assert(m.received + chunks.flatten() =~= m.received);
    } else {
        let first = chunks.first();
        let rest = chunks.drop_first();
        let m1 = model_push(m, first);
        lemma_model_run_fits(m1, rest);
        assert(m.received + first + rest.flatten() =~= m.received + chunks.flatten());
    }
}

/// A payload beyond the ceiling is refused at the reader level, whatever the
/// chunking: the reader ends up abandoned, never holding a truncated payload.
pub proof fn lemma_model_run_overflow(m: ReaderModel, chunks: Seq<Seq<u8>>)
    requires
        !m.failed,
        m.received.len() <= m.max,
        m.received.len() + chunks.flatten().len() > m.max,
    ensures
        model_run(m, chunks) == (ReaderModel {
            received: Seq::<u8>::empty(),
            max: m.max,
            failed: true,
        }),
    decreases chunks.len(),
{
    if chunks.len() == 0 {
        assert(chunks.flatten() =~= Seq::<u8>::empty());
    } else {
        let first = chunks.first();
        let rest = chunks.drop_first();
        let m1 = model_push(m, first);
        if m.received.len() + first.len() > m.max {
            lemma_model_run_failed(m1, rest);
        } else {
            lemma_model_run_overflow(m1, rest);
        }
    }
}

/// Round-trip fidelity: a payload within the ceiling, sent in any chunking
/// and finished cleanly, is received byte for byte.
pub proof fn lemma_round_trip(payload: Seq<u8>, chunks: Seq<Seq<u8>>, max: nat)
    requires
        chunks.flatten() == payload,
        payload.len() <= max,
    ensures
        drain_model(chunks, StreamEnd::Finished, max) == Ok::<Seq<u8>, TransferError>(payload),
{
}

/// A payload beyond the ceiling is reported as `PayloadTooLarge`, however the
/// stream ended.
pub proof fn lemma_oversize_refused(chunks: Seq<Seq<u8>>, end: StreamEnd, max: nat)
    requires
        chunks.flatten().len() > max,
    ensures
        drain_model(chunks, end, max) == Err::<Seq<u8>, TransferError>(
            TransferError::PayloadTooLarge,
        ),
{
}

/// A stream cut off by its connection's termination is never reported as a
/// success: truncated data is not silently accepted as complete.
pub proof fn lemma_connection_loss_is_failure(chunks: Seq<Seq<u8>>, max: nat)
    ensures
        drain_model(chunks, StreamEnd::ConnectionClosed, max) is Err,
{
}

} // verus!
