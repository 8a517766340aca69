//! The exit and wait protocol: a task ends with a status and becomes a
//! zombie; a wait reaps the zombie, taking its status and freeing its slot.

use vstd::prelude::*;
use crate::context::ContextView;
use crate::context::ExitStatus;
use crate::context::TaskState;
use crate::context::WaitTarget;
use crate::error::CocoError;
use crate::jump::JumpPoint;
use crate::model::nohang;
use crate::model::wait_target;
use crate::model::Waited;
use crate::model::COCO_WNOHANG;
use crate::model::WAIT_ANY;
use crate::scheduler::Scheduler;

verus! {

impl<A> Scheduler<A> {
    /// The running task ends with `status`. It becomes a zombie, the tasks
    /// that were blocked waiting for it, or for any task, can run again,
    /// and no task is running. The task is never resumed; control goes back
    /// to the scheduler loop at the point returned.
    ///
    /// Fails with `InvalidArgument`, and changes nothing, exactly when no
    /// task is running.
    pub fn coco_exit(&mut self, status: u32) -> (r: Result<JumpPoint, CocoError>)
        requires
            old(self).wf(),
        ensures
            final(self).wf(),
            r == old(self)@.exit_result(),
            final(self)@ == old(self)@.after_exit(status),
    {
        let ghost pre = self@;
        let tid: i32 = match self.current {
            Some(t) => t,
            None => {
                return Err(CocoError::InvalidArgument);
            },
        };
        let at: usize = (tid - 1) as usize;
        let caller: Option<JumpPoint> = match &self.slots[at] {
            Some(c) => c.caller,
            None => None,
        };
        self.current = None;
        self.stack.reset();
        proof {
            pre.lemma_vacated_inv();
            assert(pre.vacated().zombified(tid as int, ExitStatus::Exited(status)) == pre.exited(
                ExitStatus::Exited(status),
            ));
        }
        self.zombify(tid, ExitStatus::Exited(status));
        match caller {
            Some(p) => Ok(p),
            None => Err(CocoError::InvalidArgument),
        }
    }

    /// The status with which task `tid` ended, if it is a zombie.
    pub fn zombie_status(&self, tid: i32) -> (r: Option<ExitStatus>)
        requires
            self.wf(),
        ensures
            match r {
                Some(status) => self@.zombie(tid as int) && status == self@.status_of(tid as int),
                None => !self@.zombie(tid as int),
            },
    {
        if tid < 1 || tid as usize > self.slots.len() {
            return None;
        }
        match &self.slots[(tid - 1) as usize] {
            Some(c) => match c.state {
                TaskState::Zombie(status) => Some(status),
                _ => None,
            },
            None => None,
        }
    }

    /// Frees the slot of the zombie `tid`.
    pub(crate) fn reap(&mut self, tid: i32)
        requires
            old(self).wf(),
            old(self)@.zombie(tid as int),
        ensures
            final(self).wf(),
            final(self)@ == old(self)@.reaped(tid as int),
    {
        let ghost pre = self@;
        let n: usize = self.zombies.len();
        let mut k: usize = 0;
        while k < n && self.zombies[k] != tid
            invariant
                k <= n,
                n == self.zombies.len(),
                *self == *old(self),
                pre == self@,
                pre.zombies.contains(tid as int),
                forall|j: int| 0 <= j < k ==> pre.zombies[j] != tid,
            decreases n - k,
        {
            k = k + 1;
        }
        proof {
            pre.zombies.index_of_first_ensures(tid as int);
            assert(pre.zombies[k as int] == tid as int);
        }
        self.zombies.remove(k);
        self.slots[(tid - 1) as usize] = None;
        proof {
            let post = pre.reaped(tid as int);
            assert(self@.slots =~= post.slots);
            assert(self@.zombies =~= post.zombies);
            pre.lemma_reaped_inv(tid as int);
        }
    }

    /// The zombie that a wait for `target` reaps, if there is one.
    pub fn reapable(&self, target: WaitTarget) -> (r: Option<i32>)
        requires
            self.wf(),
        ensures
            match r {
                Some(z) => self@.reapable(target) == Some(z as int),
                None => self@.reapable(target) is None,
            },
    {
        match target {
            WaitTarget::Task(t) => match self.zombie_status(t) {
                Some(_) => Some(t),
                None => None,
            },
            WaitTarget::Any => if self.zombies.len() > 0 {
                Some(self.zombies[0])
            } else {
                None
            },
        }
    }

    /// Whether a wait for `target` has anything to wait for.
    pub fn awaitable(&self, target: WaitTarget) -> (b: bool)
        requires
            self.wf(),
        ensures
            b == self@.awaitable(target),
    {
        match target {
            WaitTarget::Task(t) => {
                if t < 1 || t as usize > self.slots.len() {
                    false
                } else {
                    self.slots[(t - 1) as usize].is_some()
                }
            },
            WaitTarget::Any => {
                let n: usize = self.slots.len();
                let mut i: usize = 0;
                while i < n
                    invariant
                        i <= n,
                        n == self.slots.len(),
                        n <= i32::MAX,
                        target == WaitTarget::Any,
                        forall|u: int| 1 <= u <= i ==> !(self@.has(u) && self@.current != Some(u)),
                    decreases n - i,
                {
                    let other: bool = self.slots[i].is_some() && match self.current {
                        Some(c) => c != (i + 1) as i32,
                        None => true,
                    };
                    if other {
                        proof {
                            let u: int = i + 1;
                            assert(self@.has(u) && self@.current != Some(u));
                        }
                        return true;
                    }
                    i = i + 1;
                }
                false
            },
        }
    }

    /// Waits for task `tid`, or, where `tid` is `WAIT_ANY`, for any task
    /// but the caller.
    ///
    /// - Where the target is a zombie, it is reaped at once: the result is
    ///   `Reaped` with its identifier and the status it ended with, and its
    ///   slot is free. Of several zombies, `WAIT_ANY` reaps the one that
    ///   ended first.
    /// - Where the target is not in the table, the wait fails with
    ///   `UnknownTask` and changes nothing. So does `WAIT_ANY` where the
    ///   table holds no task but the caller.
    /// - Where the target has not ended and `options` has `COCO_WNOHANG`,
    ///   the result is `Pending`, nothing changes and the caller runs on.
    /// - Where the target has not ended and `options` has no
    ///   `COCO_WNOHANG`, the caller is suspended as by `switch_out`, to go
    ///   on at `resume`, and is blocked until the target ends; the result
    ///   is `Blocked` with the point at which the scheduler loop goes on.
    ///   When it runs again, the caller repeats the wait. This fails as
    ///   `switch_out` does.
    pub fn coco_waitpid(&mut self, tid: i32, options: u32, resume: JumpPoint) -> (r: Result<
        Waited,
        CocoError,
    >)
        requires
            old(self).wf(),
        ensures
            final(self).wf(),
            r == old(self)@.wait_result(wait_target(tid), nohang(options)),
            final(self)@ == old(self)@.after_wait(wait_target(tid), nohang(options), resume),
    {
        let target: WaitTarget = if tid == WAIT_ANY {
            WaitTarget::Any
        } else {
            WaitTarget::Task(tid)
        };
        self.wait(target, options & COCO_WNOHANG != 0, resume)
    }

    /// Waits for `target`, as `coco_waitpid` does; `nohang` says whether
    /// the wait is not to block.
    pub fn wait(&mut self, target: WaitTarget, nohang: bool, resume: JumpPoint) -> (r: Result<
        Waited,
        CocoError,
    >)
        requires
            old(self).wf(),
        ensures
            final(self).wf(),
            r == old(self)@.wait_result(target, nohang),
            final(self)@ == old(self)@.after_wait(target, nohang, resume),
    {
        match self.reapable(target) {
            Some(z) => {
                match self.zombie_status(z) {
                    Some(status) => {
                        self.reap(z);
                        Ok(Waited::Reaped { tid: z, status })
                    },
                    None => Err(CocoError::UnknownTask),
                }
            },
            None => {
                if !self.awaitable(target) {
                    return Err(CocoError::UnknownTask);
                }
                if nohang {
                    return Ok(Waited::Pending);
                }
                let cur: i32 = match self.current {
                    Some(c) => c,
                    None => {
                        return Err(CocoError::InvalidArgument);
                    },
                };
                match self.switch_out(resume) {
                    Ok(caller) => {
                        let ghost mid = self@;
                        let at: usize = (cur - 1) as usize;
                        match &mut self.slots[at] {
                            Some(c) => {
                                c.state = TaskState::BlockedOnWait(target);
                            },
                            None => {},
                        }
                        proof {
                            let post = mid.blocked(cur as int, target);
                            assert(self@.slots =~= post.slots);
                            mid.lemma_with_state_inv(
                                cur as int,
                                ContextView {
                                    state: TaskState::BlockedOnWait(target),
                                    ..mid.task(cur as int)->0
                                },
                            );
                        }
                        Ok(Waited::Blocked(caller))
                    },
                    Err(e) => Err(e),
                }
            },
        }
    }
}

} // verus!
