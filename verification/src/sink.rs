//! Durable storage of completed stream payloads.
//!
//! Each completed payload is stored under a fresh identifier, so concurrent
//! transfers never share a destination. The log records exactly the payloads
//! that were durably stored, in storage order; the underlying medium (a file
//! per transfer, say) is driven from unverified code, and its verdict is fed
//! in as a plain value.

use vstd::prelude::*;

use crate::errors::TransferError;
use crate::stream::drain_model;
use crate::stream::result_bytes;
use crate::stream::StreamEnd;

verus! {

/// The record of every payload durably stored, in storage order.
pub struct SinkLog {
    entries: Vec<Vec<u8>>,
}

impl View for SinkLog {
    type V = Seq<Seq<u8>>;

    closed spec fn view(&self) -> Seq<Seq<u8>> {
        self.entries@.map_values(|v: Vec<u8>| v@)
    }
}

impl SinkLog {
    /// A sink that has stored nothing yet.
    pub fn new() -> (r: SinkLog)
        ensures
            r@ == Seq::<Seq<u8>>::empty(),
    {
        let s = SinkLog { entries: Vec::new() };
        proof {
            assert(s@ =~= Seq::<Seq<u8>>::empty());
        }
        s
    }

    /// Stores one completed payload under a fresh identifier: the sink gains
    /// exactly this one entry, and the identifier is distinct from that of
    /// every earlier entry.
    pub fn store(&mut self, payload: Vec<u8>) -> (id: usize)
        ensures
            final(self)@ == old(self)@.push(payload@),
            id == old(self)@.len(),
    {
        let id = self.entries.len();
        let ghost prev = self@;
        self.entries.push(payload);
        proof {
            assert(self@ =~= prev.push(payload@));
        }
        id
    }

    /// How many payloads have been stored.
    pub fn count(&self) -> (n: usize)
        ensures
            n == self@.len(),
    {
        self.entries.len()
    }

    /// The payload stored under the given identifier.
    pub fn entry(&self, id: usize) -> (r: &Vec<u8>)
        requires
            id < self@.len(),
        ensures
            r@ == self@[id as int],
    {
        &self.entries[id]
    }
}

/// The outcome of one stream, as the handler reports it: the stored byte
/// count on success, the error category otherwise.
pub open spec fn handler_report(
    model: Result<Seq<u8>, TransferError>,
    write_ok: bool,
) -> Result<usize, TransferError> {
    match model {
        Ok(p) => if write_ok {
            Ok(p.len() as usize)
        } else {
            Err(TransferError::SinkWriteError)
        },
        Err(e) => Err(e),
    }
}

/// What the sink holds after one stream was handled: a failed stream adds
/// nothing; a completed one adds exactly its payload, and only when the
/// underlying medium accepted the write.
pub open spec fn handler_sink(
    model: Result<Seq<u8>, TransferError>,
    write_ok: bool,
    sink0: Seq<Seq<u8>>,
) -> Seq<Seq<u8>> {
    match model {
        Ok(p) => if write_ok {
            sink0.push(p)
        } else {
            sink0
        },
        Err(_) => sink0,
    }
}

/// Hands a completed drain result to the sink. `write_ok` is the underlying
/// medium's verdict on persisting this payload; when it refused, the data is
/// not considered durably stored and `SinkWriteError` is reported. A drain
/// error is passed through and the sink is left untouched.
pub fn store_drained(
    drained: Result<Vec<u8>, TransferError>,
    write_ok: bool,
    sink: &mut SinkLog,
) -> (r: Result<usize, TransferError>)
    ensures
        r == handler_report(result_bytes(drained), write_ok),
        final(sink)@ == handler_sink(result_bytes(drained), write_ok, old(sink)@),
{
    match drained {
        Ok(payload) => {
            if write_ok {
                let n = payload.len();
                sink.store(payload);
                Ok(n)
            } else {
                Err(TransferError::SinkWriteError)
            }
        },
        Err(e) => Err(e),
    }
}

/// The whole stream handler: drains one stream transcript under the ceiling,
/// then hands the payload to the sink. The report carries the byte count on
/// success and the error category otherwise; a stream that failed — over the
/// ceiling, cut off by its connection, or refused by the medium — adds no
/// sink entry.
pub fn handle_stream(
    chunks: &Vec<Vec<u8>>,
    end: StreamEnd,
    max_size: usize,
    write_ok: bool,
    sink: &mut SinkLog,
) -> (r: Result<usize, TransferError>)
    ensures
        r == handler_report(
            drain_model(chunks@.map_values(|v: Vec<u8>| v@), end, max_size as nat),
            write_ok,
        ),
        final(sink)@ == handler_sink(
            drain_model(chunks@.map_values(|v: Vec<u8>| v@), end, max_size as nat),
            write_ok,
            old(sink)@,
        ),
{
    let drained = crate::stream::drain_transcript(chunks, end, max_size);
    store_drained(drained, write_ok, sink)
}

} // verus!
