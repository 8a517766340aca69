//! The mathematical model of the scheduler: its state as plain values, and
//! each scheduling operation as a function from state to state.
//!
//! The executable operations of [`crate::scheduler::Scheduler`] are stated
//! over these functions, and the laws of the runtime are proved about them.

use vstd::prelude::*;
use crate::context::ContextView;
use crate::context::ExitStatus;
use crate::context::TaskState;
use crate::context::WaitTarget;
use crate::error::CocoError;
use crate::jump::Entry;
use crate::jump::JumpPoint;
use crate::signal::HandlerTable;
use crate::signal::Signal;
use crate::stack::StackView;

verus! {

/// Where a dispatched task goes on.
#[derive(Clone, Copy, Debug, PartialEq, Eq, Structural)]
pub enum Resume {
    /// The task was never dispatched before: it starts at its entry, on an
    /// empty stack.
    Start(Entry),
    /// The task goes on at the point at which it suspended.
    At(JumpPoint),
}

/// What the driver has to do for a task that was switched in.
#[derive(Clone, Copy, Debug, PartialEq, Eq, Structural)]
pub struct Dispatch {
    /// The task that is now running.
    pub tid: i32,
    /// The handlers of the signals that were delivered, by kind. They are
    /// invoked, in the order of the kinds, before the task goes on.
    pub handlers: HandlerTable,
    /// Where the task goes on after that.
    pub resume: Resume,
}

/// What one turn of the scheduler loop decided.
#[derive(Clone, Copy, Debug, PartialEq, Eq, Structural)]
pub enum SchedAction {
    /// A task was switched in and is now running.
    Run(Dispatch),
    /// The task that was picked had a pending signal without a handler and
    /// was ended instead of being run.
    Terminated { tid: i32, signal: Signal },
    /// No task can run now, but some task sleeps or is blocked.
    Idle,
    /// No task can run, sleeps or is blocked: the loop ends.
    Finished,
}

/// What a wait came to.
#[derive(Clone, Copy, Debug, PartialEq, Eq, Structural)]
pub enum Waited {
    /// The task `tid` was a zombie and was reaped; it had ended with `status`.
    Reaped { tid: i32, status: ExitStatus },
    /// The target has not ended yet and the wait was not to block.
    Pending,
    /// The target has not ended yet: the caller was suspended, and control
    /// goes back to the scheduler loop at this point. The caller repeats the
    /// wait when it runs again.
    Blocked(JumpPoint),
}

/// The option of a wait that makes it return at once where the target has
/// not ended yet.
pub const COCO_WNOHANG: u32 = 1;

/// The task identifier that, in a wait, stands for any task but the caller.
pub const WAIT_ANY: i32 = -1;

/// How many ticks of the clock make a second. A tick is a millisecond.
pub const TICKS_PER_SECOND: u64 = 1000;

/// Whom a wait for the task identifier `tid` waits for.
pub open spec fn wait_target(tid: i32) -> WaitTarget {
    if tid == WAIT_ANY {
        WaitTarget::Any
    } else {
        WaitTarget::Task(tid)
    }
}

/// Whether the options of a wait say that it is not to block.
pub open spec fn nohang(options: u32) -> bool {
    options & COCO_WNOHANG != 0
}

/// The ticks that `seconds` seconds last.
pub open spec fn ticks_of_seconds(seconds: u32) -> u64 {
    (seconds * TICKS_PER_SECOND) as u64
}

/// The state of a scheduler.
pub struct SchedulerView<A> {
    /// The task table: slot `i` holds the context of task `i + 1`, if there
    /// is such a task.
    pub slots: Seq<Option<ContextView<A>>>,
    /// The task that is running, if one is.
    pub current: Option<int>,
    /// The latest tick that the scheduler was told of.
    pub clock: int,
    /// The task that was dispatched last; 0 before the first dispatch.
    pub last: int,
    /// The zombies, in the order in which they ended.
    pub zombies: Seq<int>,
    /// The shared stack.
    pub stack: StackView,
    /// How many bytes each snapshot buffer holds.
    pub frame_capacity: int,
}

impl<A> SchedulerView<A> {
    /// How many tasks the table can hold.
    pub open spec fn capacity(self) -> int {
        self.slots.len() as int
    }

    /// The context of task `tid`, if the table has one.
    pub open spec fn task(self, tid: int) -> Option<ContextView<A>> {
        if 1 <= tid <= self.slots.len() {
            self.slots[tid - 1]
        } else {
            None
        }
    }

    /// Whether `tid` names a task in the table.
    pub open spec fn has(self, tid: int) -> bool {
        self.task(tid) is Some
    }

    /// Whether `tid` names a task that can be dispatched.
    pub open spec fn runnable(self, tid: int) -> bool {
        self.task(tid) matches Some(c) && c.state is Runnable
    }

    /// Whether `tid` names a task that has ended and was not reaped.
    pub open spec fn zombie(self, tid: int) -> bool {
        self.task(tid) matches Some(c) && c.state is Zombie
    }

    /// Whether `tid` names a task that can run, sleeps or is blocked.
    pub open spec fn alive(self, tid: int) -> bool {
        self.task(tid) matches Some(c) && c.alive()
    }

    /// This state with `c` as the context of task `tid`.
    pub open spec fn with_task(self, tid: int, c: ContextView<A>) -> SchedulerView<A> {
        SchedulerView { slots: self.slots.update(tid - 1, Some(c)), ..self }
    }

    /// What holds of the state of every scheduler.
    pub open spec fn inv(self) -> bool {
        &&& self.slots.len() <= i32::MAX
        &&& 0 <= self.clock <= u64::MAX
        &&& 0 <= self.frame_capacity
        &&& 0 <= self.last <= self.slots.len()
        &&& self.stack.wf()
        &&& forall|i: int|
            0 <= i < self.slots.len() ==> (#[trigger] self.slots[i] matches Some(c) ==> c.tid == i
                + 1 && c.wf(self.clock, self.frame_capacity, self.stack.base()))
        &&& match self.current {
            Some(t) => self.runnable(t) && self.task(t)->0.caller is Some,
            None => self.stack.depth() == 0,
        }
        &&& self.zombies.no_duplicates()
        &&& forall|t: int| self.zombies.contains(t) <==> self.zombie(t)
        &&& self.waits_sound()
    }

    /// No task is blocked in vain: a task that waits for a task waits for
    /// one that is in the table and has not ended, and a task waits for any
    /// task only while there is no zombie.
    pub open spec fn waits_sound(self) -> bool {
        forall|i: int|
            0 <= i < self.slots.len() ==> (#[trigger] self.slots[i] matches Some(c) ==> match c.state {
                TaskState::BlockedOnWait(WaitTarget::Task(t)) => self.alive(t as int),
                TaskState::BlockedOnWait(WaitTarget::Any) => self.zombies.len() == 0,
                _ => true,
            })
    }

    // ---------------------------------------------------------------
    // Making tasks
    // ---------------------------------------------------------------

    /// The state of a new scheduler: an empty table of `capacity` slots,
    /// snapshot buffers of `frame_capacity` bytes, and `stack`, with nothing
    /// in use, as the shared stack.
    pub open spec fn empty(capacity: int, frame_capacity: int, stack: StackView) -> SchedulerView<
        A,
    > {
        SchedulerView {
            slots: Seq::new(capacity as nat, |i: int| None),
            current: None,
            clock: 0,
            last: 0,
            zombies: Seq::empty(),
            stack: stack.emptied(),
            frame_capacity,
        }
    }

    /// Whether `tid` is the next free identifier: the lowest one without a
    /// task.
    pub open spec fn next_free(self, tid: int) -> bool {
        &&& 1 <= tid <= self.slots.len()
        &&& !self.has(tid)
        &&& forall|u: int| 1 <= u < tid ==> self.has(u)
    }

    /// Whether every slot of the table is taken.
    pub open spec fn full(self) -> bool {
        forall|u: int| 1 <= u <= self.slots.len() ==> self.has(u)
    }

    /// There is at most one next free identifier, and none in a full table.
    pub proof fn lemma_next_free_unique(self, tid: int)
        requires
            self.next_free(tid),
        ensures
            !self.full(),
            self.free_tid() == Some(tid),
    {
        let t = choose|t: int| self.next_free(t);
        if t < tid {
            assert(self.has(t));
        }
        if tid < t {
            assert(self.has(tid));
        }
    }

    /// The identifier that the next task gets: the lowest one without a
    /// task, or none where the table is full.
    pub open spec fn free_tid(self) -> Option<int> {
        if self.full() {
            None
        } else {
            Some(choose|t: int| self.next_free(t))
        }
    }

    /// What making a task comes to: its identifier, or the error of a full
    /// table.
    pub open spec fn add_task_result(self) -> Result<i32, CocoError> {
        match self.free_tid() {
            Some(t) => Ok(t as i32),
            None => Err(CocoError::ExhaustedTaskTable),
        }
    }

    /// The state after an attempt to make a task that starts at `entry`
    /// with `args`: unchanged where the table is full.
    pub open spec fn after_add_task(self, entry: Entry, args: Option<A>) -> SchedulerView<A> {
        match self.free_tid() {
            Some(t) => self.spawned(t, entry, args),
            None => self,
        }
    }

    /// This state with a new task `tid`, which starts at `entry` with `args`.
    pub open spec fn spawned(self, tid: int, entry: Entry, args: Option<A>) -> SchedulerView<A> {
        self.with_task(
            tid,
            ContextView::fresh(
                tid,
                entry,
                args,
                self.clock,
                self.frame_capacity,
                self.stack.base(),
            ),
        )
    }

    /// The state of a scheduler that was started with `kernel` as its first
    /// task: task 1, without arguments, running from its entry on an empty
    /// stack. The scheduler loop goes on at `caller` when the task suspends.
    pub open spec fn started(
        capacity: int,
        frame_capacity: int,
        stack: StackView,
        kernel: Entry,
        caller: JumpPoint,
    ) -> SchedulerView<A> {
        Self::empty(capacity, frame_capacity, stack).spawned(1, kernel, None).switched_in(
            1,
            caller,
        )
    }

    // ---------------------------------------------------------------
    // The running task
    // ---------------------------------------------------------------

    /// The arguments that the running task can still take.
    pub open spec fn current_args(self) -> Option<A> {
        match self.current {
            Some(t) => self.task(t)->0.args,
            None => None,
        }
    }

    /// This state once the running task has taken its arguments.
    pub open spec fn args_taken(self) -> SchedulerView<A> {
        let t = self.current->0;
        self.with_task(t, ContextView { args: None, ..self.task(t)->0 })
    }

    /// What an attempt of the running task to take its arguments comes to.
    pub open spec fn take_args_result(self) -> Result<A, CocoError> {
        match self.current_args() {
            Some(p) => Ok(p),
            None => Err(CocoError::InvalidArgument),
        }
    }

    /// The state after an attempt of the running task to take its
    /// arguments: unchanged where it has none.
    pub open spec fn after_take_args(self) -> SchedulerView<A> {
        match self.current_args() {
            Some(p) => self.args_taken(),
            None => self,
        }
    }

    /// Whether the running task can push a byte: a task is running and the
    /// stack region is not full.
    pub open spec fn can_push(self) -> bool {
        self.current is Some && self.stack.sp > 0
    }

    /// Whether the running task can reach the byte `offset` bytes above the
    /// stack pointer: a task is running and that byte is in use.
    pub open spec fn can_reach(self, offset: int) -> bool {
        self.current is Some && 0 <= offset < self.stack.depth()
    }

    /// The state after an attempt of the running task to push `b`.
    pub open spec fn after_push(self, b: u8) -> SchedulerView<A> {
        if self.can_push() {
            self.with_stack(self.stack.pushed(b))
        } else {
            self
        }
    }

    /// The state after an attempt of the running task to pop a byte.
    pub open spec fn after_pop(self) -> SchedulerView<A> {
        if self.can_reach(0) {
            self.with_stack(self.stack.popped())
        } else {
            self
        }
    }

    /// The state after an attempt of the running task to write `b` to the
    /// byte `offset` bytes above the stack pointer.
    pub open spec fn after_write(self, offset: int, b: u8) -> SchedulerView<A> {
        if self.can_reach(offset) {
            self.with_stack(self.stack.written(offset, b))
        } else {
            self
        }
    }

    /// This state with `stack` as the shared stack.
    pub open spec fn with_stack(self, stack: StackView) -> SchedulerView<A> {
        SchedulerView { stack, ..self }
    }

    // ---------------------------------------------------------------
    // Signals
    // ---------------------------------------------------------------

    /// This state once `sig` was raised against task `tid`.
    pub open spec fn raised(self, tid: int, sig: Signal) -> SchedulerView<A> {
        let c = self.task(tid)->0;
        self.with_task(tid, ContextView { sig_bits: c.sig_bits.insert(sig), ..c })
    }

    /// This state once task `tid` has `handler` as its handler for `sig`.
    pub open spec fn handled(self, tid: int, sig: Signal, handler: Option<Entry>) -> SchedulerView<
        A,
    > {
        let c = self.task(tid)->0;
        self.with_task(tid, ContextView { handlers: c.handlers.spec_with(sig, handler), ..c })
    }

    /// The state after an attempt to raise `sig` against task `tid`:
    /// unchanged where the table has no such task.
    pub open spec fn after_raise(self, tid: int, sig: Signal) -> SchedulerView<A> {
        if self.has(tid) {
            self.raised(tid, sig)
        } else {
            self
        }
    }

    /// The state after an attempt to give task `tid` the handler `handler`
    /// for `sig`: unchanged where the table has no such task.
    pub open spec fn after_set_handler(
        self,
        tid: int,
        sig: Signal,
        handler: Option<Entry>,
    ) -> SchedulerView<A> {
        if self.has(tid) {
            self.handled(tid, sig, handler)
        } else {
            self
        }
    }

    /// What an attempt to give task `tid` a handler for `sig` comes to: the
    /// handler it had for `sig` before.
    pub open spec fn set_handler_result(self, tid: int, sig: Signal) -> Result<
        Option<Entry>,
        CocoError,
    > {
        match self.task(tid) {
            Some(c) => Ok(c.handlers.spec_get(sig)),
            None => Err(CocoError::UnknownTask),
        }
    }

    // ---------------------------------------------------------------
    // Time
    // ---------------------------------------------------------------

    /// This state once the scheduler was told that the tick is `now`. The
    /// clock never goes back.
    pub open spec fn ticked(self, now: int) -> SchedulerView<A> {
        SchedulerView { clock: if now > self.clock { now } else { self.clock }, ..self }
    }

    /// This state once every task whose timed wait has run out was made
    /// runnable again.
    pub open spec fn promoted(self) -> SchedulerView<A> {
        SchedulerView {
            slots: Seq::new(
                self.slots.len(),
                |i: int|
                    match self.slots[i] {
                        Some(c) => if c.due(self.clock) {
                            Some(c.woken())
                        } else {
                            Some(c)
                        },
                        None => None,
                    },
            ),
            ..self
        }
    }

    // ---------------------------------------------------------------
    // Choosing the next task
    // ---------------------------------------------------------------

    /// The lowest task above `after` that can be dispatched.
    pub open spec fn first_runnable(self, after: int) -> Option<int>
        decreases self.slots.len() - after,
    {
        if after < 0 || after >= self.slots.len() {
            None
        } else if self.runnable(after + 1) {
            Some(after + 1)
        } else {
            self.first_runnable(after + 1)
        }
    }

    /// The task to dispatch next, round-robin by identifier: the lowest
    /// runnable task above the one dispatched last, or else the lowest
    /// runnable task of all.
    pub open spec fn pick(self) -> Option<int> {
        match self.first_runnable(self.last) {
            Some(t) => Some(t),
            None => self.first_runnable(0),
        }
    }

    /// Whether some task can run, sleeps or is blocked.
    pub open spec fn busy(self) -> bool {
        exists|t: int| self.alive(t)
    }

    // ---------------------------------------------------------------
    // Ending tasks
    // ---------------------------------------------------------------

    /// This state once task `tid` has ended with `status`: it is a zombie,
    /// the last of them, and every task that was blocked waiting for it, or
    /// for any task, can run again.
    pub open spec fn zombified(self, tid: int, status: ExitStatus) -> SchedulerView<A> {
        SchedulerView {
            slots: Seq::new(
                self.slots.len(),
                |i: int|
                    match self.slots[i] {
                        Some(c) => if i == tid - 1 {
                            Some(c.ended(status))
                        } else if c.waits_for(tid) {
                            Some(c.woken())
                        } else {
                            Some(c)
                        },
                        None => None,
                    },
            ),
            zombies: self.zombies.push(tid),
            ..self
        }
    }

    /// This state once no task is running and the shared stack is empty.
    pub open spec fn vacated(self) -> SchedulerView<A> {
        SchedulerView { current: None, stack: self.stack.emptied(), ..self }
    }

    /// This state once the running task has ended with `status`.
    pub open spec fn exited(self, status: ExitStatus) -> SchedulerView<A> {
        self.zombified(self.current->0, status).vacated()
    }

    /// What an attempt of the running task to end comes to: the point at
    /// which the scheduler loop goes on.
    pub open spec fn exit_result(self) -> Result<JumpPoint, CocoError> {
        match self.current {
            None => Err(CocoError::InvalidArgument),
            Some(t) => Ok(self.task(t)->0.caller->0),
        }
    }

    /// The state after an attempt of the running task to end with the
    /// status `status`: unchanged where no task is running.
    pub open spec fn after_exit(self, status: u32) -> SchedulerView<A> {
        match self.current {
            None => self,
            Some(t) => self.exited(ExitStatus::Exited(status)),
        }
    }

    // ---------------------------------------------------------------
    // Switching
    // ---------------------------------------------------------------

    /// Whether the live stack is wider than a snapshot buffer.
    pub open spec fn overflows(self) -> bool {
        self.stack.depth() > self.frame_capacity
    }

    /// This state once the running task was suspended: its live stack is in
    /// its snapshot buffer, it goes on at `resume`, and no task is running.
    pub open spec fn switched_out(self, resume: JumpPoint) -> SchedulerView<A> {
        let t = self.current->0;
        let c = self.task(t)->0;
        self.with_task(
            t,
            ContextView { resume_point: Some(resume), frame: c.frame.saved(self.stack), ..c },
        ).vacated()
    }

    /// What an attempt to suspend the running task comes to: the point at
    /// which the scheduler loop goes on, or why the task was not suspended.
    pub open spec fn suspend_result(self) -> Result<JumpPoint, CocoError> {
        match self.current {
            None => Err(CocoError::InvalidArgument),
            Some(t) => if self.overflows() {
                Err(CocoError::StackSnapshotOverflow)
            } else {
                Ok(self.task(t)->0.caller->0)
            },
        }
    }

    /// The state after an attempt to suspend the running task: unchanged
    /// where no task is running; with the task aborted where its live stack
    /// is wider than its snapshot buffer; with the task suspended otherwise.
    pub open spec fn after_yield(self, resume: JumpPoint) -> SchedulerView<A> {
        match self.current {
            None => self,
            Some(t) => if self.overflows() {
                self.exited(ExitStatus::Aborted)
            } else {
                self.switched_out(resume)
            },
        }
    }

    /// The state after an attempt, at tick `now`, to suspend the running
    /// task for `ticks` ticks: unchanged where no task is running; else the
    /// clock is set, and the task is aborted where its live stack is wider
    /// than its snapshot buffer, and is suspended and asleep otherwise.
    pub open spec fn after_sleep(self, ticks: u64, now: int, resume: JumpPoint) -> SchedulerView<
        A,
    > {
        match self.current {
            None => self,
            Some(t) => if self.overflows() {
                self.ticked(now).exited(ExitStatus::Aborted)
            } else {
                self.ticked(now).switched_out(resume).slept(t, ticks)
            },
        }
    }

    /// This state once task `tid` was put to sleep for `ticks` ticks,
    /// counted from the present tick.
    pub open spec fn slept(self, tid: int, ticks: u64) -> SchedulerView<A> {
        let c = self.task(tid)->0;
        self.with_task(
            tid,
            ContextView { state: TaskState::TimedWait(ticks), wait_start: self.clock, ..c },
        )
    }

    /// This state once task `tid` was blocked in a wait for `target`.
    pub open spec fn blocked(self, tid: int, target: WaitTarget) -> SchedulerView<A> {
        let c = self.task(tid)->0;
        self.with_task(tid, ContextView { state: TaskState::BlockedOnWait(target), ..c })
    }

    /// This state once task `tid` was switched in: its frame is back on the
    /// shared stack, its pending signals are delivered, the scheduler loop
    /// goes on at `caller` when it suspends, and it is the running task.
    pub open spec fn switched_in(self, tid: int, caller: JumpPoint) -> SchedulerView<A> {
        let c = self.task(tid)->0;
        SchedulerView {
            current: Some(tid),
            last: tid,
            stack: self.stack.restored(c.frame.start, c.frame.bytes),
            ..self.with_task(tid, ContextView { caller: Some(caller), sig_bits: Set::empty(), ..c })
        }
    }

    /// Where task `tid` goes on when it is switched in.
    pub open spec fn resume_of(self, tid: int) -> Resume {
        let c = self.task(tid)->0;
        match c.resume_point {
            Some(p) => Resume::At(p),
            None => Resume::Start(c.entry),
        }
    }

    /// What an attempt to switch task `tid` in comes to.
    pub open spec fn switch_in_result(self, tid: int) -> Result<SchedAction, CocoError> {
        if self.current is Some {
            Err(CocoError::InvalidArgument)
        } else if !self.has(tid) {
            Err(CocoError::UnknownTask)
        } else if !self.runnable(tid) {
            Err(CocoError::InvalidArgument)
        } else {
            match self.task(tid)->0.fatal_signal() {
                Some(signal) => Ok(SchedAction::Terminated { tid: tid as i32, signal }),
                None => Ok(
                    SchedAction::Run(
                        Dispatch {
                            tid: tid as i32,
                            handlers: self.task(tid)->0.due_handlers(),
                            resume: self.resume_of(tid),
                        },
                    ),
                ),
            }
        }
    }

    /// The state after an attempt to switch task `tid` in: unchanged where
    /// the attempt fails, with the task ended where a signal without a
    /// handler is pending, and with the task running otherwise.
    pub open spec fn after_switch_in(self, tid: int, caller: JumpPoint) -> SchedulerView<A> {
        if self.current is Some || !self.runnable(tid) {
            self
        } else {
            match self.task(tid)->0.fatal_signal() {
                Some(signal) => self.zombified(tid, ExitStatus::Signaled(signal)),
                None => self.switched_in(tid, caller),
            }
        }
    }

    // ---------------------------------------------------------------
    // The scheduler loop
    // ---------------------------------------------------------------

    /// What one turn of the scheduler loop at tick `now` decides: after the
    /// clock was set and the tasks whose timed wait has run out were made
    /// runnable, the task picked is switched in; where none can be picked,
    /// the loop idles while some task sleeps or is blocked, and ends
    /// otherwise.
    pub open spec fn step_result(self, now: int) -> Result<SchedAction, CocoError> {
        if self.current is Some {
            Err(CocoError::InvalidArgument)
        } else {
            let s = self.ticked(now).promoted();
            match s.pick() {
                Some(t) => s.switch_in_result(t),
                None => if s.busy() {
                    Ok(SchedAction::Idle)
                } else {
                    Ok(SchedAction::Finished)
                },
            }
        }
    }

    /// The state after one turn of the scheduler loop at tick `now`.
    pub open spec fn after_step(self, now: int, caller: JumpPoint) -> SchedulerView<A> {
        if self.current is Some {
            self
        } else {
            let s = self.ticked(now).promoted();
            match s.pick() {
                Some(t) => s.after_switch_in(t, caller),
                None => s,
            }
        }
    }

    // ---------------------------------------------------------------
    // Waiting
    // ---------------------------------------------------------------

    /// The zombie that a wait for `target` reaps, if there is one: the
    /// target itself, or for any task the zombie that ended first.
    pub open spec fn reapable(self, target: WaitTarget) -> Option<int> {
        match target {
            WaitTarget::Task(t) => if self.zombie(t as int) {
                Some(t as int)
            } else {
                None
            },
            WaitTarget::Any => if self.zombies.len() > 0 {
                Some(self.zombies[0])
            } else {
                None
            },
        }
    }

    /// Whether a wait for `target` has anything to wait for: the target is
    /// in the table, or for any task some task other than the running one is.
    pub open spec fn awaitable(self, target: WaitTarget) -> bool {
        match target {
            WaitTarget::Task(t) => self.has(t as int),
            WaitTarget::Any => exists|u: int| self.has(u) && self.current != Some(u),
        }
    }

    /// What a wait for `target` comes to. A zombie is reaped at once. A
    /// target that is not in the table is an error. A target that has not
    /// ended leaves the wait pending, if it is not to block, and suspends
    /// the caller otherwise.
    pub open spec fn wait_result(self, target: WaitTarget, nohang: bool) -> Result<
        Waited,
        CocoError,
    > {
        match self.reapable(target) {
            Some(z) => Ok(Waited::Reaped { tid: z as i32, status: self.status_of(z) }),
            None => if !self.awaitable(target) {
                Err(CocoError::UnknownTask)
            } else if nohang {
                Ok(Waited::Pending)
            } else {
                match self.suspend_result() {
                    Ok(p) => Ok(Waited::Blocked(p)),
                    Err(e) => Err(e),
                }
            },
        }
    }

    /// The state after a wait for `target`.
    pub open spec fn after_wait(
        self,
        target: WaitTarget,
        nohang: bool,
        resume: JumpPoint,
    ) -> SchedulerView<A> {
        match self.reapable(target) {
            Some(z) => self.reaped(z),
            None => if !self.awaitable(target) || nohang {
                self
            } else {
                match self.current {
                    None => self,
                    Some(c) => if self.overflows() {
                        self.exited(ExitStatus::Aborted)
                    } else {
                        self.switched_out(resume).blocked(c, target)
                    },
                }
            },
        }
    }

    /// This state once the zombie `tid` was reaped: its slot is free.
    pub open spec fn reaped(self, tid: int) -> SchedulerView<A> {
        SchedulerView {
            slots: self.slots.update(tid - 1, None),
            zombies: self.zombies.remove_value(tid),
            ..self
        }
    }

    /// The status with which the zombie `tid` ended.
    pub open spec fn status_of(self, tid: int) -> ExitStatus {
        self.task(tid)->0.state->Zombie_0
    }
}

} // verus!
