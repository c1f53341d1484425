//! Core of a WebSocket server engine: a client registry shared between an
//! accept loop and per-connection handlers, unicast and broadcast dispatch,
//! and a cooperative start/stop protocol. The socket work itself is left to
//! an embedding application; this crate holds the decisions and the data,
//! with their contracts.

pub mod errors;
pub mod registry;
pub mod dispatch;
pub mod server;
pub mod connection;

use vstd::prelude::*;

verus! {

/// The poll interval, in milliseconds, that bounds how long the accept loop
/// may wait before it re-checks the stop flag.
pub const ACCEPT_POLL_MILLIS: u64 = 100;

} // verus!
