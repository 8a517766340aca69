//! Yielding: giving up the rest of a scheduling turn, at once or for a
//! time.

use vstd::prelude::*;
use crate::context::ContextView;
use crate::context::TaskState;
use crate::error::CocoError;
use crate::jump::JumpPoint;
use crate::model::ticks_of_seconds;
use crate::model::TICKS_PER_SECOND;
use crate::scheduler::Scheduler;

verus! {

impl<A> Scheduler<A> {
    /// The running task yields the rest of its turn. It is suspended as by
    /// `switch_out` and stays runnable.
    ///
    /// Fails as `switch_out` does.
    pub fn coco_yield(&mut self, resume: JumpPoint) -> (r: Result<JumpPoint, CocoError>)
        requires
            old(self).wf(),
        ensures
            final(self).wf(),
            r == old(self)@.suspend_result(),
            final(self)@ == old(self)@.after_yield(resume),
    {
        self.switch_out(resume)
    }

    /// The running task is suspended at tick `now`, as by `switch_out`,
    /// for `ticks` ticks from then.
    fn sleep(&mut self, ticks: u64, now: u64, resume: JumpPoint) -> (r: Result<
        JumpPoint,
        CocoError,
    >)
        requires
            old(self).wf(),
        ensures
            final(self).wf(),
            r == old(self)@.suspend_result(),
            final(self)@ == old(self)@.after_sleep(ticks, now as int, resume),
    {
        let tid: i32 = match self.current {
            Some(t) => t,
            None => {
                return Err(CocoError::InvalidArgument);
            },
        };
        self.tick(now);
        let r: Result<JumpPoint, CocoError> = self.switch_out(resume);
        if r.is_ok() {
            let ghost mid = self@;
            let at: usize = (tid - 1) as usize;
            let now: u64 = self.clock;
            match &mut self.slots[at] {
                Some(c) => {
                    c.state = TaskState::TimedWait(ticks);
                    c.wait_start = now;
                },
                None => {},
            }
            proof {
                let post = mid.slept(tid as int, ticks);
                assert(self@.slots =~= post.slots);
                mid.lemma_with_state_inv(
                    tid as int,
                    ContextView {
                        state: TaskState::TimedWait(ticks),
                        wait_start: mid.clock,
                        ..mid.task(tid as int)->0
                    },
                );
            }
        }
        r
    }

    /// The running task sleeps for `ms` milliseconds from the tick `now`,
    /// the present reading of the time source. The clock is set to `now`,
    /// the task is suspended as by `switch_out`, `now` is recorded as the
    /// start of its wait, and it cannot run again before the clock shows
    /// that tick plus `ms`.
    ///
    /// Fails as `switch_out` does; where no task is running, nothing
    /// changes.
    pub fn yield_for_ms(&mut self, ms: u32, now: u64, resume: JumpPoint) -> (r: Result<
        JumpPoint,
        CocoError,
    >)
        requires
            old(self).wf(),
        ensures
            final(self).wf(),
            r == old(self)@.suspend_result(),
            final(self)@ == old(self)@.after_sleep(ms as u64, now as int, resume),
    {
        self.sleep(ms as u64, now, resume)
    }

    /// The running task sleeps for `seconds` seconds, a thousand ticks
    /// each, from the tick `now`: as `yield_for_ms` for that many
    /// milliseconds.
    ///
    /// Fails as `switch_out` does; where no task is running, nothing
    /// changes.
    pub fn yield_for_s(&mut self, seconds: u32, now: u64, resume: JumpPoint) -> (r: Result<
        JumpPoint,
        CocoError,
    >)
        requires
            old(self).wf(),
        ensures
            final(self).wf(),
            r == old(self)@.suspend_result(),
            final(self)@ == old(self)@.after_sleep(ticks_of_seconds(seconds), now as int, resume),
    {
        let ticks: u64 = seconds as u64 * TICKS_PER_SECOND;
        self.sleep(ticks, now, resume)
    }
}

} // verus!
