//! A client for a worker process that speaks newline-delimited JSON-RPC 2.0
//! over its standard streams: the framing of requests, the handshake, the
//! correlation of responses by identifier, and the error taxonomy.
pub mod error;
pub mod json;
pub mod session;
pub mod wire;

pub use error::McpError;
pub use session::{Action, Phase, Session};
pub use wire::{Call, Inbound, Method};
