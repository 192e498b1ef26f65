//! A whole stream at once: the records of a stream that is held in memory,
//! and what holds of them.

use crate::decoder::{
    advanced, fed, fresh, json_scan, next_state, outcome, source_set, DecodeError, DecoderState,
    ErrorKind, Outcome, OutcomeView, ScanView, SourceState, StreamDecoder,
};
use crate::json::JsonView;
use crate::pump::{action, asked, reported, Action, ActionView, Pump, PumpState, Termination};
use crate::schema::{event_of, Event, EventView};
use std::sync::mpsc::Sender;
use vstd::pervasive::unreached;
use vstd::prelude::*;

verus! {

/// The sending half of a channel of the standard library.
#[verifier::external_type_specification]
#[verifier::external_body]
#[verifier::reject_recursive_types(T)]
pub struct ExSender<T>(std::sync::mpsc::Sender<T>);

/// `std::sync::mpsc::Sender::send`: hands the record to the channel and says
/// whether the channel took it. Whether it does depends on the consumer,
/// which may have hung up at any time: nothing is promised.
#[verifier::external_body]
fn send(tx: &Sender<Event>, event: Event) -> (accepted: bool) {
    tx.send(event).is_ok()
}

/// The state of a decoder that has been fed all of `bytes` by a source that
/// then ended.
pub open spec fn whole(bytes: Seq<u8>) -> DecoderState {
    source_set(fed(fresh(), bytes), SourceState::Ended)
}

/// The records that a decoder in state `s` gives, one after the other, up to
/// its first outcome that is no record.
pub open spec fn records_of(s: DecoderState) -> Seq<EventView>
    decreases s.pending.len(),
{
    match outcome(s) {
        OutcomeView::Record(e) => seq![e] + records_of(next_state(s)),
        _ => Seq::empty(),
    }
}

/// How the stream of a decoder in state `s` ends, where its source is no
/// longer open: with the first outcome that is no record.
pub open spec fn ending_of(s: DecoderState) -> Termination
    decreases s.pending.len(),
{
    match outcome(s) {
        OutcomeView::Record(_) => ending_of(next_state(s)),
        OutcomeView::Failed(e) => Termination::DecodeFailed(e),
        _ => Termination::EndOfStream,
    }
}

/// The views of some records, in their order.
pub open spec fn views_of(records: Seq<Event>) -> Seq<EventView> {
    Seq::new(records.len(), |i: int| records[i]@)
}

/// All that a stream held: its records and its end.
#[derive(Clone, Debug, PartialEq, Eq)]
pub struct Transcript {
    pub records: Vec<Event>,
    pub end: Termination,
}

/// What became of a stream that was relayed to a consumer.
#[derive(Clone, Copy, Debug, PartialEq, Eq)]
pub struct Relayed {
    /// The number of records that the consumer took.
    pub delivered: usize,
    pub end: Termination,
}

/// Reads a stream that is complete in `bytes`: all its records up to the
/// first failure or the end, in the order of the stream, and how it ended.
pub fn decode_all(bytes: &[u8]) -> (t: Transcript)
    ensures
        views_of(t.records@) == records_of(whole(bytes@)),
        t.end == ending_of(whole(bytes@)),
{
    let mut decoder = StreamDecoder::new();
    decoder.feed(bytes);
    decoder.end();
    let mut records: Vec<Event> = Vec::new();
    loop
        invariant
            decoder@.source is Ended,
            records_of(whole(bytes@)) == views_of(records@) + records_of(decoder@),
            ending_of(whole(bytes@)) == ending_of(decoder@),
        decreases decoder@.pending.len(),
    {
        let ghost before = views_of(records@);
        match decoder.next_outcome() {
            Outcome::Record(e) => {
                records.push(e);
                assert(views_of(records@) =~= before + seq![e@]);
            },
            Outcome::Failed(e) => {
                return Transcript { records, end: Termination::DecodeFailed(e) };
            },
            Outcome::Finished => {
                return Transcript { records, end: Termination::EndOfStream };
            },
            Outcome::Starved => {
                return unreached();
            },
        }
    }
}

/// Relays a stream that is complete in `bytes` to the consumer behind `tx`:
/// each record in the order of the stream, until the stream ends or fails or
/// the consumer takes no more. A consumer that stays takes every record of
/// the stream; one that leaves has taken fewer. The sender is given up on
/// return, which closes the channel.
pub fn relay(bytes: &[u8], tx: Sender<Event>) -> (r: Relayed)
    ensures
        r.end is ConsumerGone ==> r.delivered < records_of(whole(bytes@)).len(),
        !(r.end is ConsumerGone) ==> r.delivered == records_of(whole(bytes@)).len() && r.end
            == ending_of(whole(bytes@)),
{
    let mut pump = Pump::new();
    pump.feed(bytes);
    pump.end();
    let mut delivered: usize = 0;
    assert(bytes@.len() == bytes.len());
    loop
        invariant
            bytes@.len() <= usize::MAX,
            pump@.stopped is None,
            pump@.decoder.source is Ended,
            records_of(whole(bytes@)).len() == delivered + records_of(pump@.decoder).len(),
            ending_of(whole(bytes@)) == ending_of(pump@.decoder),
            delivered + pump@.decoder.pending.len() <= bytes@.len(),
        decreases pump@.decoder.pending.len(),
    {
        match pump.next_action() {
            Action::Deliver(e) => {
                let accepted = send(&tx, e);
                pump.delivered(accepted);
                if let Some(end) = pump.stopped() {
                    return Relayed { delivered, end };
                }
                delivered = delivered + 1;
            },
            Action::Stop(end) => {
                return Relayed { delivered, end };
            },
            Action::Pull => {
                return unreached();
            },
        }
    }
}

/// The records that a pump in state `p` hands out, one after the other, to
/// a consumer that takes `patience` of them and refuses the next.
pub open spec fn handed_out(p: PumpState, patience: nat) -> Seq<EventView>
    decreases p.decoder.pending.len(),
{
    match action(p) {
        ActionView::Deliver(e) => if patience == 0 {
            seq![e]
        } else {
            seq![e] + handed_out(reported(asked(p), true), (patience - 1) as nat)
        },
        _ => Seq::empty(),
    }
}

/// A consumer gets the records of the stream in their order, and a consumer
/// that leaves costs one attempt: a running pump hands out the records of
/// its stream from the first on, and after the one that is refused it hands
/// out no more.
pub proof fn lemma_handed_out(p: PumpState, patience: nat)
    requires
        p.stopped is None,
    ensures
        handed_out(p, patience) == if patience < records_of(p.decoder).len() {
            records_of(p.decoder).take((patience + 1) as int)
        } else {
            records_of(p.decoder)
        },
    decreases p.decoder.pending.len(),
{
    let all = records_of(p.decoder);
    match action(p) {
        ActionView::Deliver(e) => {
            let next = reported(asked(p), true);
            let later = records_of(next.decoder);
            assert(all == seq![e] + later);
            if patience == 0 {
                assert(all.take(1) =~= seq![e]);
            } else {
                lemma_handed_out(next, (patience - 1) as nat);
                if patience < all.len() {
                    assert(all.take((patience + 1) as int) =~= seq![e] + later.take(patience as int));
                }
            }
        },
        _ => {
            assert(all =~= Seq::<EventView>::empty());
        },
    }
}

/// Whether `bytes` begin with the documents `documents`, one after the
/// other with nothing but whitespace between them, and `rest` is what
/// follows the last of them.
pub open spec fn carries(bytes: Seq<u8>, documents: Seq<JsonView>, rest: Seq<u8>) -> bool
    decreases documents.len(),
{
    if documents.len() == 0 {
        bytes == rest
    } else {
        match json_scan(bytes) {
            ScanView::Document(j, n) => bytes.len() > 0 && j == documents[0] && 0 < n
                <= bytes.len() && carries(bytes.skip(n as int), documents.skip(1), rest),
            _ => false,
        }
    }
}

/// Whether nothing but whitespace is left in `bytes`.
pub open spec fn blank(bytes: Seq<u8>) -> bool {
    bytes.len() == 0 || json_scan(bytes) is Blank
}

/// The records that `documents` hold, in their order.
pub open spec fn events_of(documents: Seq<JsonView>) -> Seq<EventView> {
    Seq::new(documents.len(), |i: int| event_of(documents[i])->Some_0)
}

/// Whether every one of `documents` holds a record.
pub open spec fn all_records(documents: Seq<JsonView>) -> bool {
    forall|i: int| 0 <= i < documents.len() ==> (#[trigger] event_of(documents[i])) is Some
}

proof fn lemma_run(s: DecoderState, documents: Seq<JsonView>, rest: Seq<u8>)
    requires
        !s.done,
        carries(s.pending, documents, rest),
        all_records(documents),
    ensures
        rest.len() <= s.pending.len(),
        records_of(s) == events_of(documents) + records_of(left(s, rest)),
        ending_of(s) == ending_of(left(s, rest)),
    decreases documents.len(),
{
    if documents.len() == 0 {
        assert(left(s, rest) == s);
        assert(events_of(documents) + records_of(s) =~= records_of(s));
    } else {
        let n = json_scan(s.pending)->Document_1;
        let next = next_state(s);
        assert(event_of(documents[0]) is Some);
        let later = documents.skip(1);
        assert forall|i: int| 0 <= i < later.len() implies (#[trigger] event_of(later[i])) is Some by {
            assert(later[i] == documents[i + 1]);
            assert(event_of(documents[i + 1]) is Some);
        }
        lemma_run(next, later, rest);
        assert(left(next, rest) == left(s, rest));
        assert(events_of(documents) =~= seq![event_of(documents[0])->Some_0] + events_of(later)) by {
            assert forall|i: int| 0 < i < documents.len() implies events_of(documents)[i]
                == events_of(later)[i - 1] by {
                assert(later[i - 1] == documents[i]);
            }
        }
        assert(records_of(s) =~= seq![event_of(documents[0])->Some_0] + (events_of(later)
            + records_of(left(s, rest))));
    }
}

/// The state of a decoder that started in `s` and has read on until only
/// `rest` is pending.
pub open spec fn left(s: DecoderState, rest: Seq<u8>) -> DecoderState {
    DecoderState {
        pending: rest,
        consumed: advanced(s.consumed, (s.pending.len() - rest.len()) as nat),
        ..s
    }
}

/// A stream of records comes out whole and in order: where `bytes` hold
/// `documents` and then nothing but whitespace, and each document holds a
/// record, the records of the stream are those of the documents, one for
/// one and in the same order, and the stream ends in good order.
pub proof fn lemma_records_in_order(bytes: Seq<u8>, documents: Seq<JsonView>, rest: Seq<u8>)
    requires
        carries(bytes, documents, rest),
        all_records(documents),
        blank(rest),
    ensures
        records_of(whole(bytes)) == events_of(documents),
        ending_of(whole(bytes)) == Termination::EndOfStream,
{
    assert(whole(bytes).pending =~= bytes);
    lemma_run(whole(bytes), documents, rest);
    assert(events_of(documents) + Seq::<EventView>::empty() =~= events_of(documents));
}

/// An empty stream holds no record and ends in good order.
pub proof fn lemma_empty_stream()
    ensures
        records_of(whole(Seq::empty())) == Seq::<EventView>::empty(),
        ending_of(whole(Seq::empty())) == Termination::EndOfStream,
{
    assert(whole(Seq::empty()).pending =~= Seq::<u8>::empty());
}

/// A stream that breaks off in the middle of a document gives the records
/// before it and none for it: where `bytes` hold `documents`, each with a
/// record, and then the beginning of a document that the end of the stream
/// cuts off, the records of the stream are those of the documents, and the
/// stream ends with a failure at the place where the broken document began.
pub proof fn lemma_truncated_tail(bytes: Seq<u8>, documents: Seq<JsonView>, rest: Seq<u8>)
    requires
        carries(bytes, documents, rest),
        all_records(documents),
        rest.len() > 0,
        json_scan(rest) is Truncated,
    ensures
        records_of(whole(bytes)) == events_of(documents),
        rest.len() <= bytes.len(),
        ending_of(whole(bytes)) == Termination::DecodeFailed(
            DecodeError {
                kind: ErrorKind::Truncated,
                offset: advanced(0, (bytes.len() - rest.len()) as nat),
            },
        ),
{
    assert(whole(bytes).pending =~= bytes);
    lemma_run(whole(bytes), documents, rest);
    assert(events_of(documents) + Seq::<EventView>::empty() =~= events_of(documents));
}

} // verus!
