//! The part of the consensus rules that the script checks read.

use vstd::prelude::*;

verus! {

/// Number of an epoch.
pub type EpochNumber = u64;

/// Selects hard fork features by epoch.
#[derive(Debug, Clone, Copy, PartialEq, Eq, Structural)]
pub struct HardForkSwitch {
    /// First epoch in which version 1 of the virtual machine and version 2 of
    /// its system calls are in force.
    pub vm_version_1_and_syscalls_2: EpochNumber,
}

impl HardForkSwitch {
    /// Whether version 1 of the virtual machine is in force in the epoch.
    pub open spec fn vm_version_1_enabled(self, epoch_number: EpochNumber) -> bool {
        epoch_number >= self.vm_version_1_and_syscalls_2
    }

    /// Tells whether version 1 of the virtual machine and version 2 of its
    /// system calls are in force in the epoch.
    pub fn is_vm_version_1_and_syscalls_2_enabled(&self, epoch_number: EpochNumber) -> (enabled:
        bool)
        ensures
            enabled == self.vm_version_1_enabled(epoch_number),
    {
        epoch_number >= self.vm_version_1_and_syscalls_2
    }
}

/// Parameters of the chain's consensus.
#[derive(Debug, Clone, Copy, PartialEq, Eq, Structural)]
pub struct Consensus {
    pub hardfork_switch: HardForkSwitch,
}

impl Consensus {
    /// Returns the hard fork switch.
    pub fn hardfork_switch(&self) -> (switch: &HardForkSwitch)
        ensures
            *switch == self.hardfork_switch,
    {
        &self.hardfork_switch
    }
}

} // verus!
