//! Wire protocol between a keyboard-remapping daemon and its control clients.
//!
//! Every message is one JSON value on a line of its own. The message types
//! and their JSON shapes live in [`client`], [`server`], [`response`] and
//! [`fake_key`]; what the shapes have in common lives in [`shape`]; the line
//! framing lives in [`framing`]; [`json`] is the boundary to `serde_json`,
//! which reads and writes the JSON text itself.

pub mod client;
pub mod error;
pub mod fake_key;
pub mod framing;
pub mod json;
pub mod response;
pub mod server;
pub mod shape;
pub mod text;

pub use client::{ClientKind, ClientMessage};
pub use error::DecodeError;
pub use fake_key::FakeKeyActionMessage;
pub use response::ServerResponse;
pub use server::{ServerKind, ServerMessage};
