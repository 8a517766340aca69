//! The context switch engine: suspending the running task, with its live
//! stack copied to its snapshot buffer, and resuming a suspended one, with
//! its frame copied back.

use vstd::prelude::*;
use crate::context::ExitStatus;
use crate::context::TaskState;
use crate::context::WaitTarget;
use crate::error::CocoError;
use crate::jump::JumpPoint;
use crate::model::Dispatch;
use crate::model::Resume;
use crate::model::SchedAction;
use crate::scheduler::Scheduler;
use crate::signal::HandlerTable;
use crate::signal::Signal;
use crate::signal::SignalSet;

verus! {

impl<A> Scheduler<A> {
    /// Ends task `tid`, which is not running, with `status`, and wakes the
    /// tasks that were blocked waiting for it.
    pub(crate) fn zombify(&mut self, tid: i32, status: ExitStatus)
        requires
            old(self).wf(),
            old(self)@.alive(tid as int),
            old(self)@.current != Some(tid as int),
        ensures
            final(self).wf(),
            final(self)@ == old(self)@.zombified(tid as int, status),
    {
        let ghost pre = old(self)@;
        let ghost post = pre.zombified(tid as int, status);
        let n: usize = self.slots.len();
        let at: usize = (tid - 1) as usize;
        let mut i: usize = 0;
        while i < n
            invariant
                i <= n,
                n == self.slots.len(),
                n == old(self).slots.len(),
                at == tid - 1,
                pre == old(self)@,
                post == pre.zombified(tid as int, status),
                self.current == old(self).current,
                self.clock == old(self).clock,
                self.last == old(self).last,
                self.zombies == old(self).zombies,
                self.stack == old(self).stack,
                self.frame_capacity == old(self).frame_capacity,
                forall|j: int| i <= j < n ==> self.slots[j] == old(self).slots[j],
                forall|j: int| 0 <= j < i ==> self@.slots[j] == post.slots[j],
                forall|j: int|
                    0 <= j < n ==> (#[trigger] self.slots[j] matches Some(c) ==> c.wf()),
            decreases n - i,
        {
            match &mut self.slots[i] {
                Some(c) => {
                    if i == at {
                        c.exit_status = Some(status);
                        c.state = TaskState::Zombie(status);
                        c.resume_point = None;
                    } else {
                        let wake: bool = match c.state {
                            TaskState::BlockedOnWait(WaitTarget::Any) => true,
                            TaskState::BlockedOnWait(WaitTarget::Task(t)) => t == tid,
                            _ => false,
                        };
                        if wake {
                            c.state = TaskState::Runnable;
                        }
                    }
                },
                None => {},
            }
            i = i + 1;
        }
        self.zombies.push(tid);
        proof {
            assert(self@.slots =~= post.slots);
            assert(self@.zombies =~= post.zombies);
            pre.lemma_zombified_inv(tid as int, status);
        }
    }

    /// Suspends the running task: its live stack goes to its snapshot
    /// buffer, it will go on at `resume`, no task is running any more, and
    /// control goes back to the scheduler loop at the point returned. The
    /// task stays runnable.
    ///
    /// Fails with `InvalidArgument`, and changes nothing, exactly when no
    /// task is running. Fails with `StackSnapshotOverflow` exactly when a
    /// task is running whose live stack is wider than its snapshot buffer:
    /// nothing of it is saved, and the task is ended with the status
    /// `Aborted`. No other task is touched but to be woken from a wait for
    /// the aborted one.
    pub fn switch_out(&mut self, resume: JumpPoint) -> (r: Result<JumpPoint, CocoError>)
        requires
            old(self).wf(),
        ensures
            final(self).wf(),
            r == old(self)@.suspend_result(),
            final(self)@ == old(self)@.after_yield(resume),
    {
        let ghost pre = self@;
        let tid: i32 = match self.current {
            Some(t) => t,
            None => {
                return Err(CocoError::InvalidArgument);
            },
        };
        let at: usize = (tid - 1) as usize;
        let saved: Result<(), CocoError> = match &mut self.slots[at] {
            Some(c) => {
                let r: Result<(), CocoError> = c.frame.save(&self.stack);
                if r.is_ok() {
                    c.resume_point = Some(resume);
                }
                r
            },
            None => Err(CocoError::InvalidArgument),
        };
        let caller: Option<JumpPoint> = match &self.slots[at] {
            Some(c) => c.caller,
            None => None,
        };
        self.current = None;
        self.stack.reset();
        match saved {
            Ok(()) => {
                proof {
                    let post = pre.switched_out(resume);
                    assert(self@.slots =~= post.slots);
                    pre.lemma_switched_out_inv(resume);
                }
                match caller {
                    Some(p) => Ok(p),
                    None => Err(CocoError::InvalidArgument),
                }
            },
            Err(_) => {
                proof {
                    assert(self@.slots =~= pre.vacated().slots);
                    pre.lemma_vacated_inv();
                    assert(pre.vacated().zombified(tid as int, ExitStatus::Aborted) == pre.exited(
                        ExitStatus::Aborted,
                    ));
                }
                self.zombify(tid, ExitStatus::Aborted);
                Err(CocoError::StackSnapshotOverflow)
            },
        }
    }

    /// Resumes task `tid`: its frame goes back to the addresses of the
    /// shared stack that it came from, its pending signals are delivered,
    /// the scheduler loop will go on at `caller` when it suspends, and it
    /// is the running task. The result says which handlers the driver
    /// invokes and where the task then goes on: at its entry, if it never
    /// ran before, or at the point at which it suspended.
    ///
    /// A task with a pending signal for which it has no handler is not
    /// resumed: it is ended with the status `Signaled`, and the result is
    /// `Terminated`. The signal named is the first such one in the order
    /// of the kinds.
    ///
    /// Fails, and changes nothing, with `InvalidArgument` exactly when a
    /// task is running; else with `UnknownTask` exactly when the table has
    /// no task `tid`; else with `InvalidArgument` exactly when that task
    /// is not runnable.
    pub fn switch_in(&mut self, tid: i32, caller: JumpPoint) -> (r: Result<SchedAction, CocoError>)
        requires
            old(self).wf(),
        ensures
            final(self).wf(),
            r == old(self)@.switch_in_result(tid as int),
            final(self)@ == old(self)@.after_switch_in(tid as int, caller),
    {
        let ghost pre = self@;
        if self.current.is_some() {
            return Err(CocoError::InvalidArgument);
        }
        if tid < 1 || tid as usize > self.slots.len() {
            return Err(CocoError::UnknownTask);
        }
        let at: usize = (tid - 1) as usize;
        let fatal: Option<Signal> = match &self.slots[at] {
            Some(c) => {
                match c.state {
                    TaskState::Runnable => {},
                    _ => {
                        return Err(CocoError::InvalidArgument);
                    },
                }
                c.fatal_signal()
            },
            None => {
                return Err(CocoError::UnknownTask);
            },
        };
        match fatal {
            Some(signal) => {
                self.zombify(tid, ExitStatus::Signaled(signal));
                return Ok(SchedAction::Terminated { tid, signal });
            },
            None => {},
        }
        let restored: Result<(), CocoError> = match &self.slots[at] {
            Some(c) => c.frame.restore(&mut self.stack),
            None => Err(CocoError::UnknownTask),
        };
        match restored {
            Ok(()) => {},
            Err(e) => {
                return Err(e);
            },
        }
        let action: SchedAction = match &mut self.slots[at] {
            Some(c) => {
                let handlers: HandlerTable = c.due_handlers();
                let resume: Resume = match c.resume_point {
                    Some(p) => Resume::At(p),
                    None => Resume::Start(c.entry),
                };
                c.caller = Some(caller);
                c.sig_bits = SignalSet::empty();
                SchedAction::Run(Dispatch { tid, handlers, resume })
            },
            None => SchedAction::Idle,
        };
        self.current = Some(tid);
        self.last = tid;
        proof {
            let post = pre.switched_in(tid as int, caller);
            assert(self@.slots =~= post.slots);
            pre.lemma_switched_in_inv(tid as int, caller);
        }
        Ok(action)
    }

}

} // verus!
