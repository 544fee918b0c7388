//! The part of a transaction that the script checks read.

use vstd::prelude::*;

verus! {

/// A transaction, reduced to the data of its outputs, in order.
#[derive(Debug, PartialEq, Eq)]
pub struct Transaction {
    pub outputs_data: Vec<Vec<u8>>,
}

impl View for Transaction {
    type V = Seq<Seq<u8>>;

    open spec fn view(&self) -> Seq<Seq<u8>> {
        Seq::new(self.outputs_data@.len(), |i: int| self.outputs_data@[i]@)
    }
}

impl Transaction {
    /// Wraps the data of the outputs of a transaction.
    pub fn new(outputs_data: Vec<Vec<u8>>) -> (tx: Self)
        ensures
            tx.outputs_data == outputs_data,
    {
        Transaction { outputs_data }
    }
}

} // verus!
