//! User-space model of a kernel sequencer's event wire protocol.
//!
//! The crate covers the fixed-size binary event record, the tag-directed
//! decoding of its union payload, the encoder that builds fresh records,
//! and the cell-based demultiplexer that carves a raw input buffer into
//! a stream of well-formed events.  All reading and writing of the actual
//! character device stays outside this crate; the functions here work on
//! plain byte slices and are verified.

pub mod codec;
pub mod event;
pub mod flags;
pub mod input;
pub mod kind;
pub mod version;

pub use codec::ProtocolError;
pub use event::{Event, EventData, EventTime, EventWithData, QueueControlEventData};
pub use input::SeqInput;
pub use kind::EventKind;
pub use version::Version;
