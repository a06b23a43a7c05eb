//! Settings of a serial channel.

use vstd::prelude::*;

verus! {

/// The baud rate that an endpoint gets when it names none.
pub const DEFAULT_BAUD: u32 = 115200;

/// The timeout, in milliseconds, that a serial endpoint gets when it names
/// none.
pub const DEFAULT_TIMEOUT_MS: u64 = 200;

/// Options of a serial channel. Parity and flow control are carried for the
/// channel to apply.
#[derive(Debug, Clone)]
pub struct SerialOptions {
    pub baud: u32,
    /// Timeout of every read and write, in milliseconds.
    pub timeout_ms: u64,
    pub parity: Option<String>,
    pub flow_control: Option<String>,
}

impl SerialOptions {
    /// Options with the given rate and timeout, and neither parity nor flow
    /// control.
    pub fn new(baud: u32, timeout_ms: u64) -> (options: SerialOptions)
        ensures
            options.baud == baud,
            options.timeout_ms == timeout_ms,
            options.parity is None,
            options.flow_control is None,
    {
        SerialOptions { baud, timeout_ms, parity: None, flow_control: None }
    }
}

} // verus!
