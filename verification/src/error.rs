//! Errors reported by the script checks.

use vstd::prelude::*;

verus! {

/// Reference to the report of the jump-and-link decoding bug.
pub const CKB_VM_ISSUE_92: &'static str = "https://github.com/nervosnetwork/ckb-vm/issues/92";

/// Failure of a script check.
#[derive(Debug, PartialEq, Eq)]
pub enum ScriptError {
    /// A known bug would be triggered: the reference to its report, and the
    /// index of the offending output.
    EncounteredKnownBugs(String, usize),
}

/// Mathematical value of a [`ScriptError`].
pub enum ScriptErrorView {
    EncounteredKnownBugs(Seq<char>, usize),
}

impl ScriptErrorView {
    /// Index of the output that the error is about.
    pub open spec fn output_index(self) -> usize {
        match self {
            ScriptErrorView::EncounteredKnownBugs(_, index) => index,
        }
    }
}

impl View for ScriptError {
    type V = ScriptErrorView;

    open spec fn view(&self) -> ScriptErrorView {
        match self {
            ScriptError::EncounteredKnownBugs(reference, index) => {
                ScriptErrorView::EncounteredKnownBugs(reference@, *index)
            },
        }
    }
}

impl Clone for ScriptError {
    fn clone(&self) -> (copy: Self)
        ensures
            copy@ == self@,
    {
        match self {
            ScriptError::EncounteredKnownBugs(reference, index) => {
                ScriptError::EncounteredKnownBugs(reference.clone(), *index)
            },
        }
    }
}

/// The error reported for the output at `index`.
pub open spec fn known_bug_at(index: usize) -> ScriptErrorView {
    ScriptErrorView::EncounteredKnownBugs(CKB_VM_ISSUE_92@, index)
}

/// Builds the error for the output at `index`.
pub fn known_bug_error(index: usize) -> (e: ScriptError)
    ensures
        e@ == known_bug_at(index),
{
    ScriptError::EncounteredKnownBugs(CKB_VM_ISSUE_92.to_string(), index)
}

} // verus!
