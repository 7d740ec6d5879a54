//! The console of the dynamic platform.

use vstd::prelude::*;

verus! {

/// Whether this platform can read bytes from its console: it cannot.
pub open spec fn console_input_supported() -> bool {
    false
}

/// Reads bytes from the console. Console input is not supported on this
/// platform, and a read is a fault of the caller.
pub fn read_bytes(_bytes: &mut [u8]) -> (read: usize)
    requires
        console_input_supported(),
{
    0
}

} // verus!
