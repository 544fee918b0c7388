//! The environment in which a transaction is verified.

use crate::consensus::EpochNumber;
use vstd::prelude::*;

verus! {

/// Where in the chain a transaction is verified.
#[derive(Debug, Clone, Copy, PartialEq, Eq, Structural)]
pub struct TxVerifyEnv {
    /// Epoch of the block against which the transaction is verified.
    pub epoch_number: EpochNumber,
}

impl TxVerifyEnv {
    /// The epoch to evaluate hard fork features against, the proposal window
    /// left aside.
    pub fn epoch_number_without_proposal_window(&self) -> (epoch_number: EpochNumber)
        ensures
            epoch_number == self.epoch_number,
    {
        self.epoch_number
    }
}

} // verus!
