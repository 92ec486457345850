//! Trust-policy resolution and connection-attempt decisions for a QUIC
//! connectivity probe.
//!
//! The library decides; it performs no I/O. A caller reads the authority
//! file, resolves names, binds the socket and drives the handshake, and hands
//! what came back to the functions here, whose contracts say exactly what they
//! answer.

pub mod search;
pub mod address;
pub mod error;
pub mod identity;
pub mod tls;
pub mod attempt;
pub mod client;
pub mod trace;
