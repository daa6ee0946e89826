//! `derust`, the verified core of a client for the Discord gateway.
//!
//! The crate holds the connection logic of a gateway client as plain
//! functions on plain values: the frame decoder, the session state, the
//! heartbeat monitor, the cache stores and the connection supervisor. Every
//! function carries a contract that Verus proves. Sockets, timers and JSON
//! stay with the program that drives these functions.
use vstd::prelude::*;

pub mod types;

verus! {

/// Base URL of the REST API.
pub const API_URL: &'static str = "https://discord.com/api/v6";

/// Default URL of the gateway.
pub const GATEWAY_URL: &'static str = "wss://gateway.discord.gg";

} // verus!
