//! Coordination core of a small line-monitoring reporter.
//!
//! The firmware watches a set of digital status lines, coalesces bursts of
//! near-simultaneous level changes into single trigger signals, and reports
//! over an unreliable network link, never letting a failed report stop the
//! loop. This crate holds the verified coordination logic: the bounded
//! trigger channel, the edge-monitor settle logic, the orchestrator's
//! trigger-or-heartbeat cycle, and the report transport's state machine.
//! The asynchronous runtime, the hardware layer and the network stack drive
//! these state machines from outside.

pub mod channel;
pub mod monitor;
pub mod orchestrator;
pub mod secrets;
pub mod transport;
pub mod utf8;

use vstd::prelude::*;

verus! {

/// Depth of the trigger channel: how many undelivered triggers may be
/// buffered before further ones are dropped.
pub const CHANNEL_CAPACITY: usize = 10;

/// Seconds the edge monitor stays quiet after a detected transition, so a
/// burst of near-simultaneous changes yields a single trigger.
pub const SETTLE_SECONDS: u64 = 2;

/// Maximum seconds between reports: with no input activity at all, a report
/// is still issued this often.
pub const HEARTBEAT_SECONDS: u64 = 14400;

/// Size in bytes of the plaintext receive buffer the transport reuses for
/// every response.
pub const RX_BUFFER_BYTES: usize = 4192;

/// Size in bytes of each of the security layer's two scratch buffers (read
/// and write).
pub const TLS_BUFFER_BYTES: usize = 16640;

} // verus!
