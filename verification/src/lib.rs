//! A minimal encrypted point-to-point file transfer service, modelled around a
//! secure, multiplexed, connection-oriented transport.
//!
//! The verified core covers the connection and stream lifecycle: bounded
//! stream draining, stream-to-sink handoff, the per-connection accept state
//! machine, the endpoint accept loop, and the client session's send and
//! close discipline. The raw transport mechanics (handshake cryptography,
//! congestion control) are outside collaborators driven from unverified code.

pub mod client;
pub mod errors;
pub mod identity;
pub mod interleave;
pub mod server;
pub mod sink;
pub mod stream;

pub use errors::TransferError;
