//! Run configuration: round count, payload size and role, with the
//! validation that must happen before either role loop is entered.

use vstd::prelude::*;

verus! {

/// Which side of the ping-pong protocol this process plays.
#[derive(Clone, Copy, Debug, PartialEq, Eq, Structural)]
pub enum Role {
    /// Waits for the handshake, then times `round_count` ping/echo rounds
    /// and reports the statistics.
    Coordinator,
    /// Sends the handshake, then echoes every ping, `round_count` times.
    Responder,
}

/// Why a configuration was rejected.
#[derive(Clone, Copy, Debug, PartialEq, Eq, Structural)]
pub enum ConfigError {
    /// A round count of zero would leave the accumulator empty and make
    /// the summary divide by zero, so it is rejected up front.
    ZeroRoundCount,
}

/// The immutable run configuration, validated at construction.
#[derive(Clone, Copy, Debug)]
pub struct Config {
    /// Number of ping-pong rounds; always at least one.
    pub round_count: usize,
    /// Payload size in bytes. Accounting only: no payload is transferred,
    /// the value only scales the reported throughput.
    pub payload_size: usize,
    /// The role this process plays.
    pub role: Role,
}

impl Config {
    /// A configuration is well formed exactly when it asks for at least
    /// one round.
    pub open spec fn well_formed(self) -> bool {
        self.round_count >= 1
    }

    /// Validates and builds a configuration. Succeeds if and only if
    /// `round_count` is positive; a zero round count is the one malformed
    /// input and is rejected before either role loop can start.
    pub fn new(round_count: usize, payload_size: usize, role: Role) -> (r: Result<Config, ConfigError>)
        ensures
            round_count >= 1 <==> r is Ok,
            r is Ok ==> r->Ok_0 == (Config { round_count, payload_size, role }),
            r is Err ==> r->Err_0 == ConfigError::ZeroRoundCount,
            r is Ok ==> r->Ok_0.well_formed(),
    {
        if round_count == 0 {
            Err(ConfigError::ZeroRoundCount)
        } else {
            Ok(Config { round_count, payload_size, role })
        }
    }
}

} // verus!
