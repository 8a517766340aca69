//! The scheduler loop, one turn at a time: the clock, the promotion of
//! tasks whose timed wait has run out, and the round-robin choice of the
//! task to run next.

use vstd::prelude::*;
use crate::context::TaskState;
use crate::error::CocoError;
use crate::jump::JumpPoint;
use crate::model::SchedAction;
use crate::scheduler::Scheduler;

verus! {

impl<A> Scheduler<A> {
    /// Tells the scheduler that the tick is `now`. The clock never goes
    /// back: an earlier tick than the one it shows changes nothing.
    pub fn tick(&mut self, now: u64)
        requires
            old(self).wf(),
        ensures
            final(self).wf(),
            final(self)@ == old(self)@.ticked(now as int),
    {
        let ghost pre = self@;
        if now > self.clock {
            self.clock = now;
        }
        proof {
            pre.lemma_ticked_inv(now as int);
        }
    }

    /// Makes every task runnable whose timed wait has run out: the clock
    /// has reached the tick at which the wait began plus the ticks asked
    /// for. No task is made runnable earlier.
    pub fn promote(&mut self)
        requires
            old(self).wf(),
        ensures
            final(self).wf(),
            final(self)@ == old(self)@.promoted(),
    {
        let ghost pre = self@;
        let ghost post = pre.promoted();
        let n: usize = self.slots.len();
        let clock: u64 = self.clock;
        let mut i: usize = 0;
        while i < n
            invariant
                i <= n,
                n == self.slots.len(),
                n == old(self).slots.len(),
                old(self).wf(),
                pre == old(self)@,
                post == pre.promoted(),
                clock == self.clock,
                self.current == old(self).current,
                self.clock == old(self).clock,
                self.last == old(self).last,
                self.zombies == old(self).zombies,
                self.stack == old(self).stack,
                self.frame_capacity == old(self).frame_capacity,
                forall|j: int| i <= j < n ==> self.slots[j] == old(self).slots[j],
                forall|j: int| 0 <= j < i ==> self@.slots[j] == post.slots[j],
                forall|j: int|
                    0 <= j < n ==> (#[trigger] self.slots[j] matches Some(c) ==> c.wf()),
            decreases n - i,
        {
            assert(pre.slots[i as int] matches Some(c) ==> c.wf(
                pre.clock,
                pre.frame_capacity,
                pre.stack.base(),
            ));
            match &mut self.slots[i] {
                Some(c) => {
                    let due: bool = match c.state {
                        TaskState::TimedWait(ticks) => clock - c.wait_start >= ticks,
                        _ => false,
                    };
                    if due {
                        c.state = TaskState::Runnable;
                    }
                },
                None => {},
            }
            i = i + 1;
        }
        proof {
            assert(self@.slots =~= post.slots);
            pre.lemma_promoted_inv();
        }
    }

    /// The lowest runnable task whose identifier is above `after`.
    pub fn first_runnable(&self, after: usize) -> (r: Option<i32>)
        requires
            self.wf(),
        ensures
            match r {
                Some(t) => self@.first_runnable(after as int) == Some(t as int),
                None => self@.first_runnable(after as int) is None,
            },
    {
        let n: usize = self.slots.len();
        let mut i: usize = after;
        while i < n
            invariant
                after <= i,
                n == self.slots.len(),
                n <= i32::MAX,
                self@.first_runnable(after as int) == self@.first_runnable(i as int),
            decreases n - i,
        {
            let found: bool = match &self.slots[i] {
                Some(c) => match c.state {
                    TaskState::Runnable => true,
                    _ => false,
                },
                None => false,
            };
            if found {
                return Some((i + 1) as i32);
            }
            i = i + 1;
        }
        None
    }

    /// The task to run next, round-robin by identifier: the lowest
    /// runnable task above the one that was dispatched last, or else the
    /// lowest runnable task of all. `None` when no task is runnable.
    pub fn pick(&self) -> (r: Option<i32>)
        requires
            self.wf(),
        ensures
            match r {
                Some(t) => self@.pick() == Some(t as int),
                None => self@.pick() is None,
            },
    {
        match self.first_runnable(self.last as usize) {
            Some(t) => Some(t),
            None => self.first_runnable(0),
        }
    }

    /// Whether some task can run, sleeps or is blocked: whether the
    /// scheduler loop has to go on.
    pub fn busy(&self) -> (b: bool)
        requires
            self.wf(),
        ensures
            b == self@.busy(),
    {
        let n: usize = self.slots.len();
        let mut i: usize = 0;
        while i < n
            invariant
                i <= n,
                n == self.slots.len(),
                forall|t: int| 1 <= t <= i ==> !self@.alive(t),
            decreases n - i,
        {
            let alive: bool = match &self.slots[i] {
                Some(c) => match c.state {
                    TaskState::Zombie(_) => false,
                    _ => true,
                },
                None => false,
            };
            assert(alive == self@.alive(i + 1));
            if alive {
                return true;
            }
            i = i + 1;
        }
        false
    }

    /// One turn of the scheduler loop at tick `now`. The clock is set, the
    /// tasks whose timed wait has run out are made runnable, and the task
    /// picked round-robin is switched in as by `switch_in`, with `caller` as
    /// the point at which the loop goes on. Where no task is runnable, the
    /// result is `Idle` while some task sleeps or is blocked, and
    /// `Finished` once none does: every task left in the table is a zombie.
    ///
    /// Fails with `InvalidArgument`, and changes nothing, exactly when a
    /// task is running.
    pub fn step(&mut self, now: u64, caller: JumpPoint) -> (r: Result<SchedAction, CocoError>)
        requires
            old(self).wf(),
        ensures
            final(self).wf(),
            r == old(self)@.step_result(now as int),
            final(self)@ == old(self)@.after_step(now as int, caller),
    {
        if self.current.is_some() {
            return Err(CocoError::InvalidArgument);
        }
        self.tick(now);
        self.promote();
        match self.pick() {
            Some(t) => self.switch_in(t, caller),
            None => {
                if self.busy() {
                    Ok(SchedAction::Idle)
                } else {
                    Ok(SchedAction::Finished)
                }
            },
        }
    }
}

} // verus!
