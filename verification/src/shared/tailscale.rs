//! The address of this node in the network of peers.

use crate::text::{trim_text, trimmed};
use vstd::prelude::*;

verus! {

/// The address that `tailscale ip -4` printed, without the white space
/// round it; `None` where the command failed.
pub fn tailscale_ip_from(succeeded: bool, output: &str) -> (ip: Option<String>)
    ensures
        match ip {
            Some(text) => succeeded && text@ == trimmed(output@),
            None => !succeeded,
        },
{
    if succeeded {
        Some(trim_text(output))
    } else {
        None
    }
}

/// The address to report: `ip`, or `unknown` where there is none.
pub fn address_or_unknown(ip: Option<String>) -> (r: String)
    ensures
        r@ == match ip {
            Some(text) => text@,
            None => "unknown"@,
        },
{
    match ip {
        Some(text) => text,
        None => "unknown".to_owned(),
    }
}

} // verus!
