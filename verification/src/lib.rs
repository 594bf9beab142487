//! Round-trip signal latency benchmark: protocol state machines and
//! latency statistics, verified.
//!
//! Two cooperating processes play a ping-pong game over two signal kinds.
//! The coordinator times each round trip and folds the durations into a
//! latency accumulator; the responder echoes every ping. The signal
//! delivery itself is operating-system work and lives outside this crate;
//! here stand the decisions: which kind to await in which state, when a
//! round is complete, and what the statistics of the observed durations are.

pub mod config;
pub mod protocol;
pub mod stats;
