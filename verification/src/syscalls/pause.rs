//! The system call that pauses the machine.

use crate::machine::{a7, Machine, VMError};
use crate::syscalls::DEBUG_PAUSE;
use vstd::prelude::*;

verus! {

/// What a pause handler answers to a system call with the given number,
/// depending on whether pauses are skipped: calls with another number are not
/// handled, a skipped pause is handled without effect, and a pause that is not
/// skipped ends the run as if its cycles were used up.
pub open spec fn pause_outcome(number: u64, skip: bool) -> Result<bool, VMError> {
    if number != DEBUG_PAUSE {
        Ok(false)
    } else if skip {
        Ok(true)
    } else {
        Err(VMError::CyclesExceeded)
    }
}

/// Tells whether the machine asks for a pause. Only then does the answer to
/// its call depend on whether pauses are skipped.
pub fn is_pause_call(machine: &Machine) -> (pause: bool)
    ensures
        pause == (machine.syscall_number() == DEBUG_PAUSE),
{
    machine.registers[a7()] == DEBUG_PAUSE
}

/// A call with another number than that of the pause is answered alike
/// whether pauses are skipped or not.
pub proof fn other_calls_ignore_the_flag(number: u64, skip: bool, other: bool)
    requires
        number != DEBUG_PAUSE,
    ensures
        pause_outcome(number, skip) == pause_outcome(number, other),
{
}

/// Handler of the pause system call. The flag that it borrows tells whether
/// pauses are skipped.
#[derive(Debug)]
pub struct Pause<'a> {
    skip: &'a bool,
}

impl<'a> Pause<'a> {
    /// Whether pauses are skipped.
    pub closed spec fn skips(&self) -> bool {
        *self.skip
    }

    /// Creates the handler over the flag of its owner.
    pub fn new(skip: &'a bool) -> (pause: Self)
        ensures
            pause.skips() == *skip,
    {
        Self { skip }
    }

    /// Prepares the handler for a run: there is nothing to prepare.
    pub fn initialize(&mut self, _machine: &mut Machine) -> (result: Result<(), VMError>)
        ensures
            result is Ok,
            *final(_machine) == *old(_machine),
            final(self).skips() == old(self).skips(),
    {
        Ok(())
    }

    /// Answers a system call of the machine, which is left as it is.
    pub fn ecall(&mut self, machine: &mut Machine) -> (result: Result<bool, VMError>)
        ensures
            result == pause_outcome(old(machine).syscall_number(), old(self).skips()),
            *final(machine) == *old(machine),
            final(self).skips() == old(self).skips(),
    {
        if !is_pause_call(machine) {
            return Ok(false);
        }
        if *self.skip {
            return Ok(true);
        }
        Err(VMError::CyclesExceeded)
    }
}

} // verus!
