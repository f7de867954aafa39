//! Verified core of a small telemetry publisher: a hand-rolled wire codec
//! for the broker handshake and fire-and-forget publish frames, the
//! protocol-client connection flag, and the layered connection/retry state
//! machine that sequences link, transport, handshake and publishing.

pub mod client;
pub mod codec;
pub mod config;
pub mod endpoint;
pub mod manager;
pub mod telemetry;
