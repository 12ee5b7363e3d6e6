//! Secure messaging layer of Uplink, a symmetric peer-to-peer remote command
//! and file-transfer tool: key derivation, the frame pipeline, the envelope
//! protocol, the wire encoding of commands and responses, and the decisions of
//! the sender and the receiver.

pub mod config;
pub mod crypto;
pub mod enums;
pub mod handlers;
pub mod shared_state;
pub mod transport;
pub mod wire;
