//! The part of a virtual machine that system calls read.

use ckb_vm::registers::A7;
use vstd::prelude::*;

verus! {

/// Number of general purpose registers of the machine.
pub const RISCV_GENERAL_REGISTER_NUMBER: usize = 32;

/// Index of the register that carries the number of a system call.
pub open spec fn syscall_number_register() -> usize {
    17
}

/// State of a virtual machine, reduced to its general purpose registers.
#[derive(Debug, Clone, Copy, PartialEq, Eq)]
pub struct Machine {
    pub registers: [u64; RISCV_GENERAL_REGISTER_NUMBER],
}

impl Machine {
    /// Number of the system call that the machine asks for.
    pub open spec fn syscall_number(self) -> u64 {
        self.registers[syscall_number_register() as int]
    }
}

/// Failure of the virtual machine.
#[derive(Debug, Clone, Copy, PartialEq, Eq, Structural)]
pub enum VMError {
    /// The run has used up its cycles.
    CyclesExceeded,
}

/// Hands out `ckb_vm::registers::A7`.
#[verifier::external_body]
pub(crate) fn a7() -> (register: usize)
    ensures
        register == syscall_number_register(),
{
    A7
}

} // verus!
