//! Names for code and for points of execution.
//!
//! The runtime never runs a task body itself. It hands the driver an
//! [`Entry`] to start a task at, or a [`JumpPoint`] to resume one at, and
//! stores what the driver captured when the task suspended.

use vstd::prelude::*;

verus! {

/// An opaque name for the code of a task body or of a signal handler.
#[derive(Clone, Copy, Debug, PartialEq, Eq, Structural)]
pub struct Entry {
    pub id: u64,
}

/// A captured point of execution: a place that control can later be
/// transferred to. The only operations are capture and transfer.
#[derive(Clone, Copy, Debug, PartialEq, Eq, Structural)]
pub struct JumpPoint {
    label: u64,
}

impl JumpPoint {
    /// The label that this point was captured at.
    pub closed spec fn spec_label(self) -> u64 {
        self.label
    }

    /// Captures the point of execution named `label`.
    pub fn capture(label: u64) -> (p: JumpPoint)
        ensures
            p.spec_label() == label,
    {
        JumpPoint { label }
    }

    /// Transfers to this point: gives the label at which execution goes on.
    #[verifier::when_used_as_spec(spec_label)]
    pub fn transfer(self) -> (label: u64)
        ensures
            label == self.spec_label(),
    {
        self.label
    }
}

} // verus!
