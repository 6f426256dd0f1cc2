//! Chaum–Pedersen zero-knowledge authentication: the proof engine over
//! Schnorr groups, the wire messages, and the server's session state machine.

pub mod bignum;
pub mod client;
pub mod config;
pub mod crypto;
pub mod grpc;
pub mod zkp;
