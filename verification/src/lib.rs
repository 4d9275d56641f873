//! Client side of the PostgreSQL wire-protocol authentication handshake:
//! length-prefixed message framing, the startup packet, the SCRAM-SHA-256
//! challenge-response state machine, and the replication command framer
//! that rides on the same codec once the session is authenticated.

pub mod client_msg;
pub mod codec;
pub mod crypto;
pub mod dto;
pub mod errors;
pub mod handshake;
pub mod num;
pub mod replication;
pub mod rsi;
pub mod scram;
pub mod server_msg;
pub mod text;
