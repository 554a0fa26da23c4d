//! Connection registry and broadcast engine of a real-time chat relay.
//!
//! The library decides; the transport layer around it delivers. Every
//! operation on the registry returns the envelopes to send and the
//! connections that receive them, so that a caller holding the registry
//! under one lock can perform the sends best-effort.

pub mod client;
pub mod protocol;
pub mod room;
pub mod session;
pub mod text;
