//! The timeout of the channels, resolved over every source of configuration.

use vstd::prelude::*;
use crate::text::parse_u64;
use crate::settings::{choose_timeout, chosen_timeout, environment_number, value_text};

verus! {

/// The timeout, in seconds, by precedence: an explicit override, then the
/// value of the environment variable, then the persisted configuration,
/// each where it is a positive number; else 30.
pub fn network_timeout(
    explicit: Option<u64>,
    environment: Option<&str>,
    configured: Option<u64>,
) -> (seconds: u64)
    ensures
        seconds == chosen_timeout(
            explicit,
            environment_number(value_text(environment)),
            configured,
        ),
        seconds > 0,
{
    let number = match environment {
        Some(text) => parse_u64(text),
        None => None,
    };
    choose_timeout(explicit, number, configured)
}

} // verus!
