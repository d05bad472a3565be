//! Kaigi conferencing building blocks: the framed wire protocol, the
//! cross-platform parity contract, the hub's room rules and the client
//! session state machine.

pub mod platform;
pub mod soranet;
pub mod text;
pub mod client;
pub mod codec;
pub mod wire;
pub mod hub;
