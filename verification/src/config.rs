use vstd::prelude::*;
use vstd::string::StringSliceAdditionalSpecFns;

use crate::decimal::{decimal_u32_outcome, try_parse_decimal_u32, DecimalError};

verus! {

/// Number of scan results the station keeps.
pub const SCAN_RESULT_DEPTH: usize = 32;

/// Work budget of one runner step: operations per step.
pub const RUNNER_BUDGET_OPERATIONS: u32 = 8;

/// Work budget of one runner step: microseconds per step.
pub const RUNNER_BUDGET_MICROS: u32 = 100_000;

/// Timeout the radio enforces on a scan, in milliseconds.
pub const SCAN_OPERATION_TIMEOUT_MS: u32 = 15_000;

/// Timeout the radio enforces on a connection, in milliseconds.
pub const CONNECT_OPERATION_TIMEOUT_MS: u32 = 60_000;

/// How long the station waits for initialization, in seconds.
pub const INITIALIZE_WAIT_DEADLINE_SECS: u64 = 35;

/// How long the station waits for a scan, in seconds.
pub const SCAN_WAIT_DEADLINE_SECS: u64 = 30;

/// How long the station waits for a connection, in seconds.
pub const CONNECT_WAIT_DEADLINE_SECS: u64 = 90;

/// How long the station waits for a radio event, in seconds.
pub const EVENT_WAIT_DEADLINE_SECS: u64 = 2;

/// Backend initialization timeout, in milliseconds.
pub const BACKEND_INITIALIZE_TIMEOUT_MS: u32 = 30_000;

/// Backend disconnect timeout, in milliseconds.
pub const BACKEND_DISCONNECT_TIMEOUT_MS: u32 = 10_000;

/// Pause before a scan retry or a reconnect, in milliseconds.
pub const RETRY_PAUSE_MS: u64 = 250;

/// Public DNS servers used to prove routed UDP connectivity.
pub const PUBLIC_DNS_TARGETS: [[u8; 4]; 2] = [[223, 5, 5, 5], [180, 76, 76, 76]];

/// The delay before the radio starts, from the optional build setting: none
/// without the setting, else the setting read as a decimal `u32`.
pub fn hil_start_delay_ms(setting: Option<&str>) -> (delay: Result<u32, DecimalError>)
    ensures
        delay == (match setting {
            Some(value) => decimal_u32_outcome(value.spec_bytes()),
            None => Ok::<u32, DecimalError>(0),
        }),
{
    match setting {
        Some(value) => try_parse_decimal_u32(value),
        None => Ok(0),
    }
}

} // verus!
