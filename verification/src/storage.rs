//! What the persisted records are called, and how a missing one is read.

use vstd::prelude::*;
use vstd::string::StringExecFns;

verus! {

/// Why a record could not be read.
#[derive(Debug, Clone, PartialEq, Eq)]
pub enum StorageError {
    /// There is no such record.
    NotFound,
    /// Carries the platform's message.
    Other(String),
}

/// A record that does not exist reads as an empty one; every other outcome
/// of a read stands.
pub fn missing_as_empty<T>(read: Result<Vec<T>, StorageError>) -> (outcome: Result<
    Vec<T>,
    StorageError,
>)
    ensures
        match read {
            Ok(records) => outcome == Ok::<Vec<T>, StorageError>(records),
            Err(StorageError::NotFound) => outcome matches Ok(records) && records@.len() == 0,
            Err(StorageError::Other(detail)) => outcome matches Err(StorageError::Other(kept))
                && kept@ == detail@,
        },
{
    match read {
        Ok(records) => Ok(records),
        Err(StorageError::NotFound) => Ok(Vec::new()),
        Err(StorageError::Other(detail)) => Err(StorageError::Other(detail)),
    }
}

/// The decimal digit of a value below ten.
pub open spec fn digit(value: nat) -> char {
    (48 + value) as u8 as char
}

/// A number in decimal, without leading zeros.
pub open spec fn decimal_text(value: nat) -> Seq<char>
    decreases value,
{
    if value < 10 {
        seq![digit(value)]
    } else {
        decimal_text(value / 10).push(digit(value % 10))
    }
}

/// The text of a configuration that sets the network timeout.
pub open spec fn sample_config_text(network_timeout_secs: u64) -> Seq<char> {
    "{ \"network_timeout_secs\": "@ + decimal_text(network_timeout_secs as nat) + " }"@
}

/// A sequence back to front.
spec fn reversed(items: Seq<char>) -> Seq<char> {
    Seq::new(items.len(), |i: int| items[items.len() - 1 - i])
}

/// A number in decimal, without leading zeros.
pub fn decimal(value: u64) -> (text: String)
    ensures
        text@ == decimal_text(value as nat),
{
    let mut digits: Vec<char> = Vec::new();
    let mut rest: u64 = value;
    proof {
        assert(decimal_text(value as nat) + reversed(digits@) =~= decimal_text(value as nat));
    }
    while rest >= 10
        invariant
            decimal_text(value as nat) == decimal_text(rest as nat) + reversed(digits@),
        decreases rest,
    {
        let last = (48 + rest % 10) as u8 as char;
        proof {
            assert(decimal_text(rest as nat) == decimal_text((rest / 10) as nat).push(
                digit((rest % 10) as nat),
            ));
            assert(reversed(digits@.push(last)) =~= seq![last] + reversed(digits@));
            assert(decimal_text((rest / 10) as nat).push(last) + reversed(digits@)
                =~= decimal_text((rest / 10) as nat) + (seq![last] + reversed(digits@)));
        }
        digits.push(last);
        rest = rest / 10;
    }
    let mut text = String::new();
    text.push((48 + rest) as u8 as char);
    let mut at: usize = digits.len();
    proof {
        assert(reversed(digits@).take(0) =~= Seq::<char>::empty());
        assert(text@ =~= decimal_text(rest as nat) + reversed(digits@).take(0));
    }
    while at > 0
        invariant
            at <= digits@.len(),
            text@ == decimal_text(rest as nat) + reversed(digits@).take(digits@.len() - at),
        decreases at,
    {
        at -= 1;
        text.push(digits[at]);
        proof {
            let sofar = digits@.len() - at - 1;
            assert(reversed(digits@).take(sofar + 1) =~= reversed(digits@).take(sofar).push(
                digits@[at as int],
            ));
            assert((decimal_text(rest as nat) + reversed(digits@).take(sofar)).push(
                digits@[at as int],
            ) =~= decimal_text(rest as nat) + reversed(digits@).take(sofar + 1));
        }
    }
    proof {
        assert(reversed(digits@).take(digits@.len() as int) =~= reversed(digits@));
    }
    text
}

/// The text of a configuration that sets the network timeout to the given
/// number of seconds.
pub fn sample_config(network_timeout_secs: u64) -> (text: String)
    ensures
        text@ == sample_config_text(network_timeout_secs),
{
    String::from_str("{ \"network_timeout_secs\": ").concat(
        decimal(network_timeout_secs).as_str(),
    ).concat(" }")
}

} // verus!
