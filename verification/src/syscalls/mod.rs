//! System calls that the scripts' virtual machine offers.

pub mod pause;

use vstd::prelude::*;

verus! {

/// Number of the system call that pauses the machine.
pub const DEBUG_PAUSE: u64 = 2178;

} // verus!
