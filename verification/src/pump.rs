//! The event pump: what a worker that relays a watch stream does next.
//!
//! The worker itself reads from the network and sends on a channel; the pump
//! holds its decisions. The worker asks [`Pump::next_action`], does what the
//! action says, and reports back: bytes with [`Pump::feed`], the end or the
//! failure of the source with [`Pump::end`] and [`Pump::fail`], and whether a
//! record could be handed to the consumer with [`Pump::delivered`]. Once the
//! pump has stopped it stays stopped, and reads nothing more.

use crate::decoder::{
    fed, fresh, next_state, outcome, DecodeError, DecoderState, Outcome, OutcomeView, source_set,
    SourceState, StreamDecoder,
};
use crate::schema::{Event, EventView};
use vstd::prelude::*;

verus! {

/// Why a pump stopped.
#[derive(Clone, Copy, Debug, PartialEq, Eq)]
pub enum Termination {
    /// The stream ended after its last record.
    EndOfStream,
    /// The stream could not be read any further.
    DecodeFailed(DecodeError),
    /// The consumer no longer takes records.
    ConsumerGone,
}

/// What the worker is to do next.
#[derive(Clone, Debug, PartialEq, Eq)]
pub enum Action {
    /// Hand this record to the consumer, then report with `delivered`.
    Deliver(Event),
    /// Read from the source, then report with `feed`, `end` or `fail`.
    Pull,
    /// Close the channel and leave.
    Stop(Termination),
}

pub enum ActionView {
    Deliver(EventView),
    Pull,
    Stop(Termination),
}

impl View for Action {
    type V = ActionView;

    open spec fn view(&self) -> ActionView {
        match self {
            Action::Deliver(e) => ActionView::Deliver(e@),
            Action::Pull => ActionView::Pull,
            Action::Stop(t) => ActionView::Stop(*t),
        }
    }
}

/// The state of a pump.
pub struct PumpState {
    pub decoder: DecoderState,
    /// Why the pump stopped, once it has.
    pub stopped: Option<Termination>,
}

/// The state of a pump that has not started yet.
pub open spec fn idle() -> PumpState {
    PumpState { decoder: fresh(), stopped: None }
}

/// The action that a pump in state `p` asks for. A pump that has stopped
/// asks for nothing else; a running pump asks for what the next outcome of
/// its decoder calls for.
pub open spec fn action(p: PumpState) -> ActionView {
    match p.stopped {
        Some(t) => ActionView::Stop(t),
        None => match outcome(p.decoder) {
            OutcomeView::Record(e) => ActionView::Deliver(e),
            OutcomeView::Failed(e) => ActionView::Stop(Termination::DecodeFailed(e)),
            OutcomeView::Finished => ActionView::Stop(Termination::EndOfStream),
            OutcomeView::Starved => ActionView::Pull,
        },
    }
}

/// The state of the pump after it has asked for its next action. A pump that
/// has stopped does not touch its decoder.
pub open spec fn asked(p: PumpState) -> PumpState {
    match p.stopped {
        Some(_) => p,
        None => PumpState {
            decoder: next_state(p.decoder),
            stopped: match outcome(p.decoder) {
                OutcomeView::Failed(e) => Some(Termination::DecodeFailed(e)),
                OutcomeView::Finished => Some(Termination::EndOfStream),
                _ => None,
            },
        },
    }
}

/// The state of the pump after the worker has tried to hand over a record.
/// The first record that the consumer does not take stops a running pump.
pub open spec fn reported(p: PumpState, accepted: bool) -> PumpState {
    if accepted || p.stopped is Some {
        p
    } else {
        PumpState { stopped: Some(Termination::ConsumerGone), ..p }
    }
}

/// Drives one decoder for one worker.
pub struct Pump {
    decoder: StreamDecoder,
    stopped: Option<Termination>,
}

impl View for Pump {
    type V = PumpState;

    closed spec fn view(&self) -> PumpState {
        PumpState { decoder: self.decoder@, stopped: self.stopped }
    }
}

impl Pump {
    /// A pump for a stream of which nothing has been read yet.
    pub fn new() -> (p: Pump)
        ensures
            p@ == idle(),
    {
        Pump { decoder: StreamDecoder::new(), stopped: None }
    }

    /// Reports the bytes that the worker has read.
    pub fn feed(&mut self, bytes: &[u8])
        ensures
            final(self)@ == (PumpState { decoder: fed(old(self)@.decoder, bytes@), ..old(self)@ }),
    {
        self.decoder.feed(bytes);
    }

    /// Reports that the source has ended in good order.
    pub fn end(&mut self)
        ensures
            final(self)@ == (PumpState {
                decoder: source_set(old(self)@.decoder, SourceState::Ended),
                ..old(self)@
            }),
    {
        self.decoder.end();
    }

    /// Reports that reading from the source has failed.
    pub fn fail(&mut self)
        ensures
            final(self)@ == (PumpState {
                decoder: source_set(old(self)@.decoder, SourceState::Broken),
                ..old(self)@
            }),
    {
        self.decoder.fail();
    }

    /// Why the pump stopped, once it has.
    pub fn stopped(&self) -> (t: Option<Termination>)
        ensures
            t == self@.stopped,
    {
        self.stopped
    }

    /// Says what the worker is to do next.
    pub fn next_action(&mut self) -> (a: Action)
        ensures
            a@ == action(old(self)@),
            final(self)@ == asked(old(self)@),
    {
        if let Some(t) = self.stopped {
            return Action::Stop(t);
        }
        match self.decoder.next_outcome() {
            Outcome::Record(e) => Action::Deliver(e),
            Outcome::Failed(e) => {
                let t = Termination::DecodeFailed(e);
                self.stopped = Some(t);
                Action::Stop(t)
            },
            Outcome::Finished => {
                self.stopped = Some(Termination::EndOfStream);
                Action::Stop(Termination::EndOfStream)
            },
            Outcome::Starved => Action::Pull,
        }
    }

    /// Reports whether the consumer took the record that was last handed
    /// out.
    pub fn delivered(&mut self, accepted: bool)
        ensures
            final(self)@ == reported(old(self)@, accepted),
    {
        if !accepted && self.stopped.is_none() {
            self.stopped = Some(Termination::ConsumerGone);
        }
    }
}

/// A pump stays stopped: once it has a reason to stop, it asks for nothing
/// but to stop for that reason, asking leaves its state as it is, and no
/// report on a delivery changes it.
pub proof fn lemma_stopped_stays(p: PumpState, accepted: bool)
    requires
        p.stopped is Some,
    ensures
        action(p) == ActionView::Stop(p.stopped->Some_0),
        asked(p) == p,
        reported(p, accepted) == p,
{
}

/// A consumer that is gone stops the pump at once: after a record that was
/// not taken, a pump that was running asks only to stop, and its decoder is
/// not asked for another outcome.
pub proof fn lemma_refusal_stops(p: PumpState)
    requires
        p.stopped is None,
    ensures
        action(reported(p, false)) == ActionView::Stop(Termination::ConsumerGone),
        asked(reported(p, false)).decoder == p.decoder,
        asked(reported(p, false)) == reported(p, false),
{
}

} // verus!
