//! The stream decoder: from the bytes of a watch stream to its records, one
//! at a time.
//!
//! The decoder keeps the bytes that it was fed and has not used yet. Each
//! call of [`StreamDecoder::next_outcome`] looks for one complete document at
//! their head. It does not wait for input: while the source is open and the
//! document at the head is not complete yet, the answer is
//! [`Outcome::Starved`], and the caller feeds more.

use crate::json::{json_of, JsonView};
use crate::schema::{event_of, Event, EventView};
use serde_json::Value;
use vstd::prelude::*;

verus! {

/// What is known of the source that feeds a decoder.
#[derive(Clone, Copy, Debug, PartialEq, Eq)]
pub enum SourceState {
    /// More bytes may come.
    Open,
    /// The source has ended in good order.
    Ended,
    /// Reading from the source has failed.
    Broken,
}

/// Why no record could be read.
#[derive(Clone, Copy, Debug, PartialEq, Eq)]
pub enum ErrorKind {
    /// The bytes are not JSON.
    Malformed,
    /// The source ended in the middle of a document.
    Truncated,
    /// The document is JSON but holds no record.
    Mismatch,
    /// Reading from the source failed.
    Transport,
}

/// A failed attempt to read a record.
#[derive(Clone, Copy, Debug, PartialEq, Eq)]
pub struct DecodeError {
    pub kind: ErrorKind,
    /// How many bytes of the stream had been used when the attempt began.
    pub offset: u64,
}

/// The result of one attempt to read a record.
#[derive(Clone, Debug, PartialEq, Eq)]
pub enum Outcome {
    /// The next record of the stream.
    Record(Event),
    /// The stream cannot be read any further.
    Failed(DecodeError),
    /// The stream has ended; there is nothing more to read.
    Finished,
    /// The bytes fed so far end before the next document does.
    Starved,
}

pub enum OutcomeView {
    Record(EventView),
    Failed(DecodeError),
    Finished,
    Starved,
}

impl View for Outcome {
    type V = OutcomeView;

    open spec fn view(&self) -> OutcomeView {
        match self {
            Outcome::Record(e) => OutcomeView::Record(e@),
            Outcome::Failed(e) => OutcomeView::Failed(*e),
            Outcome::Finished => OutcomeView::Finished,
            Outcome::Starved => OutcomeView::Starved,
        }
    }
}

/// What the parser finds at the head of some bytes.
pub enum Scan {
    /// Nothing but whitespace.
    Blank,
    /// A complete document, and the number of bytes up to its end.
    Document(Value, usize),
    /// The beginning of a document, cut off by the end of the bytes.
    Truncated,
    /// Bytes that no document begins with.
    Malformed,
}

pub enum ScanView {
    Blank,
    Document(JsonView, nat),
    Truncated,
    Malformed,
}

impl View for Scan {
    type V = ScanView;

    open spec fn view(&self) -> ScanView {
        match self {
            Scan::Blank => ScanView::Blank,
            Scan::Document(v, n) => ScanView::Document(json_of(*v), *n as nat),
            Scan::Truncated => ScanView::Truncated,
            Scan::Malformed => ScanView::Malformed,
        }
    }
}

/// What `serde_json` finds at the head of `bytes`.
pub uninterp spec fn json_scan(bytes: Seq<u8>) -> ScanView;

/// The first step of `serde_json`'s stream deserializer over a slice, with
/// `serde_json::Value` as the target: `StreamDeserializer::next`, then
/// `byte_offset`, and `Error::is_eof` on an error. The result depends on the
/// bytes alone. A document that was read ends after at least one byte and
/// within the slice.
#[verifier::external_body]
pub(crate) fn scan(bytes: &Vec<u8>) -> (found: Scan)
    ensures
        found@ == json_scan(bytes@),
        found matches Scan::Document(_, n) ==> 0 < n <= bytes.len(),
{
    let mut stream = serde_json::Deserializer::from_slice(bytes).into_iter::<Value>();
    match stream.next() {
        None => Scan::Blank,
        Some(Ok(value)) => Scan::Document(value, stream.byte_offset()),
        Some(Err(e)) => if e.is_eof() {
            Scan::Truncated
        } else {
            Scan::Malformed
        },
    }
}

/// The state of a decoder.
pub struct DecoderState {
    /// The bytes that were fed and not used yet.
    pub pending: Seq<u8>,
    /// The number of bytes used so far; it stops counting at `u64::MAX`.
    pub consumed: u64,
    pub source: SourceState,
    /// Whether the last outcome but `Finished` has been given.
    pub done: bool,
}

/// The position `n` bytes after `offset`, held at `u64::MAX` once it is
/// reached.
pub open spec fn advanced(offset: u64, n: nat) -> u64 {
    if offset + n > u64::MAX {
        u64::MAX
    } else {
        (offset + n) as u64
    }
}

/// What stands at the head of the pending bytes.
pub open spec fn head_of(s: DecoderState) -> ScanView {
    if s.pending.len() == 0 {
        ScanView::Blank
    } else {
        json_scan(s.pending)
    }
}

/// Whether a document's end lies where a document can end: after at least
/// one of the pending bytes and not beyond them.
pub open spec fn in_bounds(s: DecoderState, n: nat) -> bool {
    0 < n <= s.pending.len()
}

/// The outcome for a decoder in state `s` that has not finished, where
/// `found` stands at the head of its pending bytes. A document gives its
/// record, or a mismatch where it holds none; one whose end does not lie
/// within the pending bytes counts as malformed. Whitespace and the
/// beginning of a document leave the decoder waiting while the source is
/// open; once it is not, they give the end of the stream or a failure.
pub open spec fn settled(s: DecoderState, found: ScanView) -> OutcomeView {
    match found {
        ScanView::Document(j, n) => if in_bounds(s, n) && event_of(j) is Some {
            OutcomeView::Record(event_of(j)->Some_0)
        } else if in_bounds(s, n) {
            OutcomeView::Failed(DecodeError { kind: ErrorKind::Mismatch, offset: s.consumed })
        } else {
            OutcomeView::Failed(DecodeError { kind: ErrorKind::Malformed, offset: s.consumed })
        },
        ScanView::Malformed => OutcomeView::Failed(
            DecodeError { kind: ErrorKind::Malformed, offset: s.consumed },
        ),
        ScanView::Truncated => match s.source {
            SourceState::Open => OutcomeView::Starved,
            SourceState::Ended => OutcomeView::Failed(
                DecodeError { kind: ErrorKind::Truncated, offset: s.consumed },
            ),
            SourceState::Broken => OutcomeView::Failed(
                DecodeError { kind: ErrorKind::Transport, offset: s.consumed },
            ),
        },
        ScanView::Blank => match s.source {
            SourceState::Open => OutcomeView::Starved,
            SourceState::Ended => OutcomeView::Finished,
            SourceState::Broken => OutcomeView::Failed(
                DecodeError { kind: ErrorKind::Transport, offset: s.consumed },
            ),
        },
    }
}

/// The state that follows `s` once `found` has been settled: a record uses
/// up its document, whitespace is dropped, and every outcome except a record
/// and `Starved` is the last.
pub open spec fn settled_state(s: DecoderState, found: ScanView) -> DecoderState {
    let done = !(settled(s, found) is Record || settled(s, found) is Starved);
    match found {
        ScanView::Document(j, n) => if in_bounds(s, n) && event_of(j) is Some {
            DecoderState {
                pending: s.pending.skip(n as int),
                consumed: advanced(s.consumed, n),
                source: s.source,
                done,
            }
        } else {
            DecoderState { done, ..s }
        },
        ScanView::Blank => DecoderState {
            pending: Seq::empty(),
            consumed: advanced(s.consumed, s.pending.len()),
            source: s.source,
            done,
        },
        _ => DecoderState { done, ..s },
    }
}

/// The outcome of the next attempt in state `s`.
pub open spec fn outcome(s: DecoderState) -> OutcomeView {
    if s.done {
        OutcomeView::Finished
    } else {
        settled(s, head_of(s))
    }
}

/// The state after the next attempt in state `s`.
pub open spec fn next_state(s: DecoderState) -> DecoderState {
    if s.done {
        s
    } else {
        settled_state(s, head_of(s))
    }
}

/// The state of a decoder that has been fed nothing yet.
pub open spec fn fresh() -> DecoderState {
    DecoderState { pending: Seq::empty(), consumed: 0, source: SourceState::Open, done: false }
}

/// The state `s` after its source has handed over `bytes`: they join the
/// pending ones while the source is open, and are dropped once it is not.
pub open spec fn fed(s: DecoderState, bytes: Seq<u8>) -> DecoderState {
    if s.source is Open {
        DecoderState { pending: s.pending + bytes, ..s }
    } else {
        s
    }
}

/// The state `s` after its source has changed to `to`. A source that has
/// ended or failed stays as it is.
pub open spec fn source_set(s: DecoderState, to: SourceState) -> DecoderState {
    if s.source is Open {
        DecoderState { source: to, ..s }
    } else {
        s
    }
}

fn advance(offset: u64, n: usize) -> (r: u64)
    ensures
        r == advanced(offset, n as nat),
{
    if n as u64 > u64::MAX - offset {
        u64::MAX
    } else {
        offset + n as u64
    }
}

/// Reads the records of one watch stream, in the order of the stream.
pub struct StreamDecoder {
    pending: Vec<u8>,
    consumed: u64,
    source: SourceState,
    done: bool,
}

impl View for StreamDecoder {
    type V = DecoderState;

    closed spec fn view(&self) -> DecoderState {
        DecoderState {
            pending: self.pending@,
            consumed: self.consumed,
            source: self.source,
            done: self.done,
        }
    }
}

impl StreamDecoder {
    /// A decoder for a stream of which nothing has been read yet.
    pub fn new() -> (d: StreamDecoder)
        ensures
            d@ == fresh(),
    {
        StreamDecoder { pending: Vec::new(), consumed: 0, source: SourceState::Open, done: false }
    }

    /// Hands the decoder the next bytes of the stream.
    pub fn feed(&mut self, bytes: &[u8])
        ensures
            final(self)@ == fed(old(self)@, bytes@),
    {
        if let SourceState::Open = self.source {
            self.pending.extend_from_slice(bytes);
            assert(self.pending@ =~= old(self).pending@ + bytes@);
        }
    }

    /// Tells the decoder that the source has ended in good order.
    pub fn end(&mut self)
        ensures
            final(self)@ == source_set(old(self)@, SourceState::Ended),
    {
        if let SourceState::Open = self.source {
            self.source = SourceState::Ended;
        }
    }

    /// Tells the decoder that reading from the source has failed.
    pub fn fail(&mut self)
        ensures
            final(self)@ == source_set(old(self)@, SourceState::Broken),
    {
        if let SourceState::Open = self.source {
            self.source = SourceState::Broken;
        }
    }

    /// The number of bytes that were fed and not used yet.
    pub fn pending_len(&self) -> (n: usize)
        ensures
            n == self@.pending.len(),
    {
        self.pending.len()
    }

    /// Whether the stream has given its last outcome.
    pub fn is_done(&self) -> (done: bool)
        ensures
            done == self@.done,
    {
        self.done
    }

    /// Attempts to read the next record.
    pub fn next_outcome(&mut self) -> (out: Outcome)
        ensures
            out@ == outcome(old(self)@),
            final(self)@ == next_state(old(self)@),
    {
        if self.done {
            return Outcome::Finished;
        }
        let found = if self.pending.len() == 0 {
            Scan::Blank
        } else {
            scan(&self.pending)
        };
        self.settle(found)
    }

    /// Gives the outcome for what was found at the head of the pending
    /// bytes, and moves past it.
    pub fn settle(&mut self, found: Scan) -> (out: Outcome)
        requires
            !old(self)@.done,
            found matches Scan::Document(_, n) ==> 0 < n <= old(self)@.pending.len(),
        ensures
            out@ == settled(old(self)@, found@),
            final(self)@ == settled_state(old(self)@, found@),
    {
        let offset = self.consumed;
        match found {
            Scan::Document(value, n) => match Event::decode(&value) {
                Some(event) => {
                    let rest = self.pending.split_off(n);
                    self.pending = rest;
                    self.consumed = advance(offset, n);
                    Outcome::Record(event)
                },
                None => {
                    self.done = true;
                    Outcome::Failed(DecodeError { kind: ErrorKind::Mismatch, offset })
                },
            },
            Scan::Malformed => {
                self.done = true;
                Outcome::Failed(DecodeError { kind: ErrorKind::Malformed, offset })
            },
            Scan::Truncated => match self.source {
                SourceState::Open => Outcome::Starved,
                SourceState::Ended => {
                    self.done = true;
                    Outcome::Failed(DecodeError { kind: ErrorKind::Truncated, offset })
                },
                SourceState::Broken => {
                    self.done = true;
                    Outcome::Failed(DecodeError { kind: ErrorKind::Transport, offset })
                },
            },
            Scan::Blank => {
                self.consumed = advance(offset, self.pending.len());
                self.pending.clear();
                match self.source {
                    SourceState::Open => Outcome::Starved,
                    SourceState::Ended => {
                        self.done = true;
                        Outcome::Finished
                    },
                    SourceState::Broken => {
                        self.done = true;
                        Outcome::Failed(DecodeError { kind: ErrorKind::Transport, offset })
                    },
                }
            },
        }
    }
}

} // verus!
