//! The verified core of a QUIC tunnelling proxy with a SOCKS5 front end.
//!
//! - [`address`], [`connect`], [`packet`]: the inner wire protocol, with its laws.
//! - [`request`]: the length-prefixed request header.
//! - [`secret`]: deriving and comparing the shared authenticator.
//! - [`client`], [`server`], [`socks`]: what each end decides for a stream or a datagram.
//! - [`transport`], [`quic`]: the connection task's rules and the transport settings.

pub mod address;
pub mod client;
pub mod connect;
pub mod error;
pub mod octets;
pub mod packet;
pub mod quic;
pub mod request;
pub mod secret;
pub mod server;
pub mod socks;
pub mod transport;
