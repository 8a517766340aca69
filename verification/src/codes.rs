//! Return codes, for a boundary that speaks in integers: a task
//! identifier, which is positive, stands for success; 0 says that a wait
//! has not come to its end; a negative number names an error.

use vstd::prelude::*;
use crate::error::CocoError;
use crate::model::SchedulerView;
use crate::model::Waited;
use crate::context::WaitTarget;

verus! {

/// The return code of making a task.
pub open spec fn spec_tid_code(r: Result<i32, CocoError>) -> i32 {
    match r {
        Ok(tid) => tid,
        Err(e) => e.spec_code(),
    }
}

/// The return code of making a task: the identifier of the task, or the
/// negative code of the error.
#[verifier::when_used_as_spec(spec_tid_code)]
pub fn tid_code(r: Result<i32, CocoError>) -> (c: i32)
    ensures
        c == spec_tid_code(r),
{
    match r {
        Ok(tid) => tid,
        Err(e) => e.code(),
    }
}

/// The return code of a wait.
pub open spec fn spec_wait_code(r: Result<Waited, CocoError>) -> i32 {
    match r {
        Ok(Waited::Reaped { tid, status }) => tid,
        Ok(Waited::Pending) => 0i32,
        Ok(Waited::Blocked(p)) => 0i32,
        Err(e) => e.spec_code(),
    }
}

/// The return code of a wait: the identifier of the task that was reaped;
/// 0 where the target has not ended yet; the negative code of the error.
#[verifier::when_used_as_spec(spec_wait_code)]
pub fn wait_code(r: Result<Waited, CocoError>) -> (c: i32)
    ensures
        c == spec_wait_code(r),
{
    match r {
        Ok(Waited::Reaped { tid, status: _ }) => tid,
        Ok(Waited::Pending) => 0,
        Ok(Waited::Blocked(_)) => 0,
        Err(e) => e.code(),
    }
}

impl<A> SchedulerView<A> {
    /// The return code of a wait tells its three outcomes apart: it is
    /// positive exactly when a task was reaped, 0 exactly when the target
    /// has not ended yet, and negative exactly when the wait failed.
    pub proof fn law_wait_code(self, target: WaitTarget, nohang: bool)
        requires
            self.inv(),
        ensures
            spec_wait_code(self.wait_result(target, nohang)) > 0 <==> self.wait_result(
                target,
                nohang,
            ) matches Ok(Waited::Reaped { .. }),
            spec_wait_code(self.wait_result(target, nohang)) < 0 <==> self.wait_result(
                target,
                nohang,
            ) is Err,
    {
        self.lemma_reapable(target);
    }

    /// The return code of making a task is positive exactly when a task
    /// was made.
    pub proof fn law_tid_code(self)
        requires
            self.inv(),
        ensures
            spec_tid_code(self.add_task_result()) > 0 <==> self.add_task_result() is Ok,
    {
        self.lemma_free_tid();
    }
}

} // verus!
