//! Everything that travels over the gateway, and the state machines that
//! keep a gateway connection alive.
pub mod activity;
pub mod builder;
pub mod cache;
pub mod client;
pub mod decoder;
pub mod heartbeat;
pub mod opcodes;
pub mod payloads;
pub mod session;
