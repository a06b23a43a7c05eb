//! The acknowledgment rule of the line protocol.

use vstd::prelude::*;
use vstd::string::StrSliceExecFns;
use crate::text::{lowercase, to_lowercase};

verus! {

/// `text` begins with the two characters `o`, `k`.
pub open spec fn has_ok_prefix(text: Seq<char>) -> bool {
    "ok"@.is_prefix_of(text)
}

/// An acknowledgment counts as success when its lowercase form begins with
/// `ok`; anything else is a device-reported error.
pub open spec fn accepts(ack: Seq<char>) -> bool {
    has_ok_prefix(lowercase(ack))
}

/// Whether an already lowercased acknowledgment begins with `ok`.
pub fn starts_with_ok(lowered: &str) -> (yes: bool)
    ensures
        yes == has_ok_prefix(lowered@),
{
    proof {
        reveal_strlit("ok");
    }
    let yes = lowered.unicode_len() >= 2 && lowered.get_char(0) == 'o' && lowered.get_char(1)
        == 'k';
    proof {
        if yes {
            assert("ok"@ =~= lowered@.subrange(0, 2));
        } else if lowered@.len() >= 2 {
            assert(lowered@.subrange(0, 2)[0] == lowered@[0]);
            assert(lowered@.subrange(0, 2)[1] == lowered@[1]);
        }
    }
    yes
}

/// Whether the device accepted the line it was sent: case-insensitively, the
/// acknowledgment begins with `ok`.
pub fn ack_accepted(ack: &str) -> (yes: bool)
    ensures
        yes == accepts(ack@),
{
    let lowered = to_lowercase(ack);
    starts_with_ok(lowered.as_str())
}

} // verus!
