//! Numeric limits and alignment units of buffer mapping.
use crate::error::{over_max_safe_integer, over_usize, ErrorView};
use vstd::prelude::*;

verus! {

/// The largest byte length of a mapping, `2^53 - 1`: the largest integer that
/// script represents exactly.
pub const MAX_SAFE_INTEGER: u64 = 9007199254740991;

/// The range error for a mapping of `len` bytes, if `len` is larger than
/// [`MAX_SAFE_INTEGER`] or than `usize` can hold.
pub open spec fn length_error(len: int) -> Option<ErrorView> {
    if len > MAX_SAFE_INTEGER {
        Some(ErrorView::Range(over_max_safe_integer()))
    } else if len > usize::MAX {
        Some(ErrorView::Range(over_usize()))
    } else {
        None
    }
}

/// The map mode flag for reading.
pub const READ: u32 = 1;

/// The map mode flag for writing.
pub const WRITE: u32 = 2;

/// The unit that the offset of a mapped range is a multiple of.
pub open spec fn map_alignment_unit() -> u64 {
    8
}

/// The unit that the size of a mapped range is a multiple of.
pub open spec fn copy_alignment_unit() -> u64 {
    4
}

/// Reads the constant `wgpu_types::MAP_ALIGNMENT`, which that crate defines
/// as 8. Nothing is proved of it: the contract repeats the definition.
#[verifier::external_body]
pub(crate) fn map_alignment() -> (unit: u64)
    ensures
        unit == map_alignment_unit(),
{
    wgpu_types::MAP_ALIGNMENT
}

/// Reads the constant `wgpu_types::COPY_BUFFER_ALIGNMENT`, which that crate
/// defines as 4. Nothing is proved of it: the contract repeats the definition.
#[verifier::external_body]
pub(crate) fn copy_buffer_alignment() -> (unit: u64)
    ensures
        unit == copy_alignment_unit(),
{
    wgpu_types::COPY_BUFFER_ALIGNMENT
}

} // verus!
