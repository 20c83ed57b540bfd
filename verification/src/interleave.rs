//! Independence of concurrent streams on one connection.
//!
//! The transport may interleave the deliveries of two concurrent streams in
//! any order; the streams share no state, so each reader ends exactly as if
//! it had received its own chunks alone. This module states and proves that
//! over the reader model of `stream`.

use vstd::prelude::*;

use crate::stream::model_push;
use crate::stream::model_run;
use crate::stream::reader_init;
use crate::stream::lemma_model_run_fits;
use crate::stream::lemma_model_run_overflow;
use crate::stream::ReaderModel;

verus! {

/// One delivery on a connection carrying two concurrent streams: a chunk,
/// addressed to the first or to the second stream.
pub ghost struct Delivery {
    /// Whether the chunk belongs to the second stream.
    pub to_second: bool,
    /// The bytes delivered.
    pub chunk: Seq<u8>,
}

/// The two readers of a connection carrying two concurrent streams.
pub ghost struct PairState {
    /// The reader of the first stream.
    pub first: ReaderModel,
    /// The reader of the second stream.
    pub second: ReaderModel,
}

/// One delivery reaches the reader it is addressed to; the other reader is
/// untouched.
pub open spec fn pair_push(s: PairState, d: Delivery) -> PairState {
    if d.to_second {
        PairState { first: s.first, second: model_push(s.second, d.chunk) }
    } else {
        PairState { first: model_push(s.first, d.chunk), second: s.second }
    }
}

/// A whole interleaved schedule of deliveries, applied in order.
pub open spec fn pair_run(s: PairState, sched: Seq<Delivery>) -> PairState
    decreases sched.len(),
{
    if sched.len() == 0 {
        s
    } else {
        pair_run(pair_push(s, sched.first()), sched.drop_first())
    }
}

/// The chunks a schedule delivers to one of the two streams, in order.
pub open spec fn deliveries_to(sched: Seq<Delivery>, to_second: bool) -> Seq<Seq<u8>>
    decreases sched.len(),
{
    if sched.len() == 0 {
        Seq::empty()
    } else {
        let rest = deliveries_to(sched.drop_first(), to_second);
        if sched.first().to_second == to_second {
            seq![sched.first().chunk] + rest
        } else {
            rest
        }
    }
}

/// Prepending a chunk to a run is one push followed by the rest of the run.
proof fn lemma_model_run_cons(m: ReaderModel, chunk: Seq<u8>, rest: Seq<Seq<u8>>)
    ensures
        model_run(m, seq![chunk] + rest) == model_run(model_push(m, chunk), rest),
{
    let s = seq![chunk] + rest;
    assert(s.first() == chunk);
    assert(s.drop_first() =~= rest);
}

/// The interleaving is irrelevant: after any schedule, each reader stands
/// exactly where its own deliveries alone would have left it.
pub proof fn lemma_pair_run_projects(s: PairState, sched: Seq<Delivery>)
    ensures
        pair_run(s, sched).first == model_run(s.first, deliveries_to(sched, false)),
        pair_run(s, sched).second == model_run(s.second, deliveries_to(sched, true)),
    decreases sched.len(),
{
    if sched.len() > 0 {
        let d = sched.first();
        let rest = sched.drop_first();
        lemma_pair_run_projects(pair_push(s, d), rest);
        if d.to_second {
            lemma_model_run_cons(s.second, d.chunk, deliveries_to(rest, true));
        } else {
            lemma_model_run_cons(s.first, d.chunk, deliveries_to(rest, false));
        }
    }
}

/// No cross-stream interference: two payloads sent concurrently on one
/// connection, each within its reader's ceiling, are both received whole and
/// byte for byte — whatever the interleaving, whatever their sizes, and
/// whichever stream completes first.
pub proof fn lemma_no_cross_stream_interference(
    sched: Seq<Delivery>,
    max_first: nat,
    max_second: nat,
    payload_first: Seq<u8>,
    payload_second: Seq<u8>,
)
    requires
        deliveries_to(sched, false).flatten() == payload_first,
        deliveries_to(sched, true).flatten() == payload_second,
        payload_first.len() <= max_first,
        payload_second.len() <= max_second,
    ensures
        ({
            let end = pair_run(
                PairState { first: reader_init(max_first), second: reader_init(max_second) },
                sched,
            );
            &&& end.first.received == payload_first
            &&& !end.first.failed
            &&& end.second.received == payload_second
            &&& !end.second.failed
        }),
{
    let start = PairState { first: reader_init(max_first), second: reader_init(max_second) };
    lemma_pair_run_projects(start, sched);
    lemma_model_run_fits(reader_init(max_first), deliveries_to(sched, false));
    lemma_model_run_fits(reader_init(max_second), deliveries_to(sched, true));
    assert(Seq::<u8>::empty() + payload_first =~= payload_first);
    assert(Seq::<u8>::empty() + payload_second =~= payload_second);
}

/// A stream that overruns its ceiling fails alone: its reader is abandoned
/// with nothing kept, while the sibling stream still completes byte for byte,
/// whatever the interleaving.
pub proof fn lemma_overflow_confined_to_own_stream(
    sched: Seq<Delivery>,
    max_first: nat,
    max_second: nat,
    payload_second: Seq<u8>,
)
    requires
        deliveries_to(sched, false).flatten().len() > max_first,
        deliveries_to(sched, true).flatten() == payload_second,
        payload_second.len() <= max_second,
    ensures
        ({
            let end = pair_run(
                PairState { first: reader_init(max_first), second: reader_init(max_second) },
                sched,
            );
            &&& end.first.failed
            &&& end.first.received == Seq::<u8>::empty()
            &&& end.second.received == payload_second
            &&& !end.second.failed
        }),
{
    let start = PairState { first: reader_init(max_first), second: reader_init(max_second) };
    lemma_pair_run_projects(start, sched);
    lemma_model_run_overflow(reader_init(max_first), deliveries_to(sched, false));
    lemma_model_run_fits(reader_init(max_second), deliveries_to(sched, true));
    assert(Seq::<u8>::empty() + payload_second =~= payload_second);
}

} // verus!
