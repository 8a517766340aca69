//! The errors of the runtime.

use vstd::prelude::*;

verus! {

/// What can go wrong in a scheduling operation.
#[derive(Clone, Copy, Debug, PartialEq, Eq, Structural)]
pub enum CocoError {
    /// A handle that the operation needs is missing: no task is running, or
    /// the running task has no arguments to read.
    InvalidArgument,
    /// The task identifier names no task in the table: it never existed or it
    /// was already reaped.
    UnknownTask,
    /// The live stack of the running task is wider than a snapshot buffer.
    /// The task cannot be suspended and is aborted.
    StackSnapshotOverflow,
    /// Every slot of the task table is taken.
    ExhaustedTaskTable,
}

impl CocoError {
    /// The negative return code that stands for this error at a boundary
    /// that speaks in integers.
    pub open spec fn spec_code(self) -> i32 {
        match self {
            CocoError::InvalidArgument => -1i32,
            CocoError::UnknownTask => -2i32,
            CocoError::StackSnapshotOverflow => -3i32,
            CocoError::ExhaustedTaskTable => -4i32,
        }
    }

    /// The negative return code of this error.
    #[verifier::when_used_as_spec(spec_code)]
    pub fn code(self) -> (c: i32)
        ensures
            c == self.spec_code(),
            c < 0,
    {
        match self {
            CocoError::InvalidArgument => -1,
            CocoError::UnknownTask => -2,
            CocoError::StackSnapshotOverflow => -3,
            CocoError::ExhaustedTaskTable => -4,
        }
    }
}

} // verus!
