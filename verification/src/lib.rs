//! Live connection core for a telemetry dashboard.
//!
//! The library verifies the three pieces of real engineering behind the
//! dashboard's live view: the wire codec that translates tagged JSON frames
//! into typed messages, the reconnecting worker state machine that owns the
//! connection lifecycle, and the consumer-side state that is driven purely by
//! the stream of connection events.

use vstd::prelude::*;

pub mod channel;
pub mod codec;
pub mod consumer;
pub mod json;
pub mod messages;
pub mod worker;

verus! {

/// The fixed delay, in milliseconds, that the worker waits after a failed
/// dial attempt before dialing again.
pub const RETRY_DELAY_MS: u64 = 2000;

/// The delay between worker loop iterations while a connection is active,
/// so that the worker neither busy-spins nor starves pending commands.
pub const IDLE_PAUSE_MS: u64 = 10;

} // verus!
