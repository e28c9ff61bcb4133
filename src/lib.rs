//! Configuration resolution and transport-parameter derivation for a QUIC
//! tunnelling service with a server role and a client role.

pub mod config;
pub mod server;
pub mod client;
pub mod transport;
pub mod socket;
pub mod codec;
pub mod quic;
pub mod tls;
