//! What the control surface checks before it reads a command.

use vstd::prelude::*;

verus! {

/// Longest request body, in bytes, that the control surface reads.
pub const MAX_LEN: usize = 128;

/// Whether a request body of `len` bytes is short enough to be read.
pub fn body_fits(len: usize) -> (fits: bool)
    ensures
        fits == (len <= MAX_LEN),
{
    len <= MAX_LEN
}

} // verus!
