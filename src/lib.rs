//! A remote console: a TCP message bus whose clients reach named handlers
//! either through a typed binary envelope or through free text.
//!
//! This crate holds the console's decisions: the envelope codec, the
//! registry of handlers and its builder, the origin gate, and the per-session
//! state machine. Sockets, tasks and the handlers themselves live with the
//! caller, which performs the actions that the state machine asks for.

pub mod builder;
pub mod codec;
pub mod error;
pub mod session;
pub mod text;

pub use builder::{Builder, ConsoleState};
pub use codec::{decode_envelope, encode_envelope, Envelope, MAX_PAYLOAD_LEN};
pub use error::Error;
pub use session::{AcceptAction, AcceptEvent, Action, Event, Outcome, Phase, Route};
pub use text::{ensure_newline, weak_text};
