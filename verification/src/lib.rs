//! Gateway transport layer for a real-time messaging service.
//!
//! The crate covers connection-level concerns of a persistent websocket
//! channel: transport payload decompression under three negotiated schemes,
//! the typed `{op, d}` message protocol for outbound control operations, and
//! decoding of inbound event envelopes.  Session lifecycle policy (when to
//! heartbeat, when to resume, reconnect backoff) belongs to the caller.

pub mod builder;
pub mod compression;
pub mod error;
pub mod json;
pub mod message;
pub mod model;
pub mod secrets;
pub mod transport;
