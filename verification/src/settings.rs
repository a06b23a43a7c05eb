//! The timeout that every channel applies to connect, read and write.

use vstd::prelude::*;
use crate::text::{parse_u64, parsed_u64};

verus! {

/// The timeout, in seconds, where nothing else is configured.
pub const DEFAULT_TIMEOUT_SECS: u64 = 30;

/// The name of the environment variable that holds the timeout in seconds.
pub fn timeout_variable() -> (name: &'static str)
    ensures
        name@ == "GCK_NETWORK_TIMEOUT_SECS"@,
{
    "GCK_NETWORK_TIMEOUT_SECS"
}

/// A configured number of seconds counts where it is positive.
pub open spec fn positive(seconds: Option<u64>) -> Option<u64> {
    match seconds {
        Some(value) if value > 0 => Some(value),
        _ => None,
    }
}

/// The first of the sources that counts, in the order of precedence: the
/// explicit override, the environment, the persisted configuration; else
/// the default of 30 seconds.
pub open spec fn chosen_timeout(
    explicit: Option<u64>,
    environment: Option<u64>,
    configured: Option<u64>,
) -> u64 {
    if let Some(seconds) = positive(explicit) {
        seconds
    } else if let Some(seconds) = positive(environment) {
        seconds
    } else if let Some(seconds) = positive(configured) {
        seconds
    } else {
        DEFAULT_TIMEOUT_SECS
    }
}

/// The number that the value of the environment variable reads as, if the
/// variable is set and reads as one.
pub open spec fn environment_number(value: Option<Seq<char>>) -> Option<u64> {
    match value {
        Some(text) => parsed_u64(text),
        None => None,
    }
}

/// The text of an optional text.
pub open spec fn value_text(value: Option<&str>) -> Option<Seq<char>> {
    match value {
        Some(text) => Some(text@),
        None => None,
    }
}

/// Chooses the timeout, in seconds, among the numbers that the sources give.
pub fn choose_timeout(
    explicit: Option<u64>,
    environment: Option<u64>,
    configured: Option<u64>,
) -> (seconds: u64)
    ensures
        seconds == chosen_timeout(explicit, environment, configured),
        seconds > 0,
{
    match explicit {
        Some(value) if value > 0 => {
            return value;
        },
        _ => {},
    }
    match environment {
        Some(value) if value > 0 => {
            return value;
        },
        _ => {},
    }
    match configured {
        Some(value) if value > 0 => {
            return value;
        },
        _ => {},
    }
    DEFAULT_TIMEOUT_SECS
}

/// The timeout, in seconds, that the environment configures: the value of
/// the variable where it is set and reads as a positive number, else 30.
pub fn network_timeout(environment: Option<&str>) -> (seconds: u64)
    ensures
        seconds == chosen_timeout(None, environment_number(value_text(environment)), None),
        seconds > 0,
{
    let number = match environment {
        Some(text) => parse_u64(text),
        None => None,
    };
    choose_timeout(None, number, None)
}

} // verus!
