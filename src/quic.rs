//! Settings of the two ends of the QUIC transport.

pub mod client;
pub mod server;
