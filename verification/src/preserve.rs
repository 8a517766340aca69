//! The invariant of the scheduler is kept by every step that the
//! operations are made of.

use vstd::prelude::*;
use crate::context::ContextView;
use crate::context::ExitStatus;
use crate::context::TaskState;
use crate::context::WaitTarget;
use crate::jump::Entry;
use crate::jump::JumpPoint;
use crate::model::SchedulerView;
use crate::stack::StackView;

verus! {

impl<A> SchedulerView<A> {
    /// Ending a task that is alive and not running keeps the invariant.
    pub proof fn lemma_zombified_inv(self, tid: int, status: ExitStatus)
        requires
            self.inv(),
            self.alive(tid),
            self.current != Some(tid),
        ensures
            self.zombified(tid, status).inv(),
    {
        let post = self.zombified(tid, status);
        assert(!self.zombies.contains(tid));
        assert forall|t: int| post.zombies.contains(t) <==> post.zombie(t) by {
            if post.zombies.contains(t) {
                let k = choose|k: int| 0 <= k < post.zombies.len() && post.zombies[k] == t;
                if k < self.zombies.len() {
                    assert(self.zombies.contains(t));
                }
            }
            if post.zombie(t) {
                if t == tid {
                    assert(post.zombies[self.zombies.len() as int] == tid);
                } else {
                    assert(self.zombie(t));
                    let k = choose|k: int| 0 <= k < self.zombies.len() && self.zombies[k] == t;
                    assert(post.zombies[k] == t);
                }
            }
        }
    }

    /// Taking the running task off the stack keeps the invariant.
    pub proof fn lemma_vacated_inv(self)
        requires
            self.inv(),
        ensures
            self.vacated().inv(),
    {
        let post = self.vacated();
        assert(post.inv());
    }

    /// Suspending the running task, when its live stack fits its snapshot
    /// buffer, keeps the invariant.
    pub proof fn lemma_switched_out_inv(self, resume: JumpPoint)
        requires
            self.inv(),
            self.current is Some,
            !self.overflows(),
        ensures
            self.switched_out(resume).inv(),
    {
        let post = self.switched_out(resume);
        assert(post.inv());
    }

    /// Resuming a runnable task, when no task is running, keeps the
    /// invariant, and the live stack is then the frame of that task.
    pub proof fn lemma_switched_in_inv(self, tid: int, caller: JumpPoint)
        requires
            self.inv(),
            self.current is None,
            self.runnable(tid),
        ensures
            self.switched_in(tid, caller).inv(),
            self.switched_in(tid, caller).stack.live() == self.task(tid)->0.frame.bytes,
    {
        let post = self.switched_in(tid, caller);
        let c = self.task(tid)->0;
        self.stack.lemma_restored_live(c.frame.start, c.frame.bytes);
    }

    /// Setting the clock keeps the invariant.
    pub proof fn lemma_ticked_inv(self, now: int)
        requires
            self.inv(),
            now <= u64::MAX,
        ensures
            self.ticked(now).inv(),
    {
        let post = self.ticked(now);
        assert(post.inv());
    }

    /// Promoting the tasks whose timed wait has run out keeps the invariant.
    pub proof fn lemma_promoted_inv(self)
        requires
            self.inv(),
        ensures
            self.promoted().inv(),
    {
        let post = self.promoted();
        assert(post.inv());
    }

    /// Putting a task that is neither running nor a zombie into another
    /// state that is not that of a zombie, with its wait counted from no
    /// later than the present tick, keeps the invariant, provided that a
    /// task that is blocked is not blocked in vain.
    pub proof fn lemma_with_state_inv(self, tid: int, c: ContextView<A>)
        requires
            self.inv(),
            self.alive(tid),
            self.current != Some(tid),
            !(c.state is Zombie),
            0 <= c.wait_start <= self.clock,
            match c.state {
                TaskState::BlockedOnWait(WaitTarget::Task(t)) => self.alive(t as int),
                TaskState::BlockedOnWait(WaitTarget::Any) => self.zombies.len() == 0,
                _ => true,
            },
            c == (ContextView { state: c.state, wait_start: c.wait_start, ..self.task(tid)->0 }),
        ensures
            self.with_task(tid, c).inv(),
    {
        let post = self.with_task(tid, c);
        assert(post.inv());
    }

    /// Changing, in a task of the table, only the pending signals, the
    /// handlers or the arguments keeps the invariant.
    pub proof fn lemma_with_data_inv(self, tid: int, c: ContextView<A>)
        requires
            self.inv(),
            self.has(tid),
            c == (ContextView {
                sig_bits: c.sig_bits,
                handlers: c.handlers,
                args: c.args,
                ..self.task(tid)->0
            }),
        ensures
            self.with_task(tid, c).inv(),
    {
        let post = self.with_task(tid, c);
        assert(post.inv());
    }

    /// Changing the shared stack, but not its size, while a task is
    /// running keeps the invariant.
    pub proof fn lemma_with_stack_inv(self, stack: StackView)
        requires
            self.inv(),
            self.current is Some,
            stack.wf(),
            stack.bytes.len() == self.stack.bytes.len(),
        ensures
            self.with_stack(stack).inv(),
    {
        let post = self.with_stack(stack);
        assert(post.inv());
    }

    /// Reaping a zombie keeps the invariant.
    pub proof fn lemma_reaped_inv(self, tid: int)
        requires
            self.inv(),
            self.zombie(tid),
        ensures
            self.reaped(tid).inv(),
    {
        let post = self.reaped(tid);
        self.zombies.index_of_first_ensures(tid);
        let k = self.zombies.index_of_first(tid)->0;
        self.zombies.remove_ensures(k);
        assert forall|t: int| post.zombies.contains(t) <==> post.zombie(t) by {
            if post.zombies.contains(t) {
                let i = choose|i: int| 0 <= i < post.zombies.len() && post.zombies[i] == t;
                assert(self.zombies.contains(t));
            }
            if post.zombie(t) {
                assert(self.zombie(t));
                let oi = choose|oi: int| 0 <= oi < self.zombies.len() && self.zombies[oi] == t;
                let i = if oi < k { oi } else { oi - 1 };
                assert(post.zombies[i] == self.zombies[oi]);
            }
        }
    }

    /// Making a task with the next free identifier keeps the invariant.
    pub proof fn lemma_spawned_inv(self, tid: int, entry: Entry, args: Option<A>)
        requires
            self.inv(),
            self.next_free(tid),
        ensures
            self.spawned(tid, entry, args).inv(),
    {
        let post = self.spawned(tid, entry, args);
        assert(post.inv());
    }

    /// The end of the running task keeps the invariant.
    pub proof fn lemma_exited_inv(self, status: ExitStatus)
        requires
            self.inv(),
            self.current is Some,
        ensures
            self.exited(status).inv(),
            self.exited(status) == self.vacated().zombified(self.current->0, status),
    {
        self.lemma_vacated_inv();
        self.vacated().lemma_zombified_inv(self.current->0, status);
    }

    /// What `first_runnable` gives is the lowest runnable task above
    /// `after`, and it gives one whenever there is one.
    pub proof fn lemma_first_runnable(self, after: int)
        requires
            0 <= after,
        ensures
            match self.first_runnable(after) {
                Some(t) => after < t <= self.slots.len() && self.runnable(t) && forall|u: int|
                    after < u < t ==> !self.runnable(u),
                None => forall|u: int| after < u ==> !self.runnable(u),
            },
        decreases self.slots.len() - after,
    {
        if after < self.slots.len() && !self.runnable(after + 1) {
            self.lemma_first_runnable(after + 1);
        }
    }
}

} // verus!
