//! Scuttlebutt turns the watch stream of a cluster's event endpoint into a
//! sequence of typed events.
//!
//! The stream is a run of JSON documents, one per change, separated by
//! whitespace or by nothing at all. [`decoder::StreamDecoder`] cuts the bytes
//! into documents and maps each onto [`schema::Event`]; [`pump::Pump`] decides,
//! outcome by outcome, what a worker that relays the events has to do next.

pub mod json;
pub mod schema;
pub mod decoder;
pub mod pump;
pub mod stream;

pub use crate::decoder::{DecodeError, ErrorKind, Outcome, Scan, SourceState, StreamDecoder};
pub use crate::pump::{Action, Pump, Termination};
pub use crate::schema::{Event, EventSource, Object, ObjectMeta, ObjectReference};
pub use crate::stream::{decode_all, relay, Relayed, Transcript};
