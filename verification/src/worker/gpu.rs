//! What the node reports of its graphics hardware.

use crate::text::{parse_unsigned, read_unsigned, trim_text, trimmed};
use vstd::prelude::*;

verus! {

/// The free video memory, in MB, that a line of `nvidia-smi` states; zero
/// where the line is no number.
pub open spec fn vram_of(output: Seq<char>) -> nat {
    match parse_unsigned(trimmed(output), u64::MAX as nat) {
        Some(mb) => mb,
        None => 0,
    }
}

/// Name and free video memory of the GPU, from what `nvidia-smi` printed
/// for each: both without the white space round them.
pub fn nvidia_info_from(name_output: &str, vram_output: &str) -> (info: (String, u64))
    ensures
        info.0@ == trimmed(name_output@),
        info.1 == vram_of(vram_output@),
{
    let name = trim_text(name_output);
    let vram_text = trim_text(vram_output);
    let vram = match read_unsigned(vram_text.as_str(), u64::MAX) {
        Some(mb) => mb,
        None => 0,
    };
    (name, vram)
}

/// Name and free video memory of the GPU: what `nvidia-smi` told, or an
/// unknown GPU without memory where it told nothing.
pub fn get_gpu_info(nvidia: Option<(String, u64)>) -> (info: (String, u64))
    ensures
        match nvidia {
            Some(told) => info == told,
            None => info.0@ == "Unknown GPU"@ && info.1 == 0,
        },
{
    match nvidia {
        Some(told) => told,
        None => ("Unknown GPU".to_owned(), 0),
    }
}

} // verus!
