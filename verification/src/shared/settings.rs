//! Settings that are read from text.

use crate::text::{parse_unsigned, read_unsigned};
use vstd::prelude::*;

verus! {

/// The coordinator that is asked where none is named.
pub open spec fn default_coordinator() -> Seq<char> {
    "https://troop.100monkeys.ai"@
}

/// The number that a setting states, or `default` where the setting is
/// absent, is no number, or is above `max`.
pub open spec fn number_or(setting: Option<String>, max: nat, default: nat) -> nat {
    match setting {
        Some(text) => match parse_unsigned(text@, max) {
            Some(n) => n,
            None => default,
        },
        None => default,
    }
}

/// The number that a setting states, or `default`.
pub fn read_setting(setting: &Option<String>, max: u64, default: u64) -> (n: u64)
    requires
        default <= max,
    ensures
        n == number_or(*setting, max as nat, default as nat),
        n <= max,
{
    match setting {
        Some(text) => match read_unsigned(text.as_str(), max) {
            Some(n) => n,
            None => default,
        },
        None => default,
    }
}

} // verus!
