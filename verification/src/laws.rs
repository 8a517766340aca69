//! The laws of the runtime: what holds of every state that a scheduler can
//! be in, and of every sequence of operations on it.

use vstd::prelude::*;
use crate::context::ContextView;
use crate::context::ExitStatus;
use crate::context::TaskState;
use crate::context::WaitTarget;
use crate::error::CocoError;
use crate::frame::lemma_save_restore;
use crate::jump::Entry;
use crate::jump::JumpPoint;
use crate::model::Dispatch;
use crate::model::Resume;
use crate::model::SchedAction;
use crate::model::SchedulerView;
use crate::model::Waited;
use crate::ops::Op;
use crate::signal::HandlerTable;
use crate::signal::Signal;
use crate::stack::StackView;

verus! {

impl<A> SchedulerView<A> {
    // ---------------------------------------------------------------
    // The clock
    // ---------------------------------------------------------------

    /// No operation sets the clock back.
    pub proof fn law_clock_monotonic(self, op: Op<A>)
        ensures
            self.apply(op).clock >= self.clock,
    {
    }

    /// No sequence of operations sets the clock back.
    pub proof fn law_clock_monotonic_run(self, ops: Seq<Op<A>>)
        ensures
            self.run(ops).clock >= self.clock,
        decreases ops.len(),
    {
        if ops.len() > 0 {
            self.law_clock_monotonic_run(ops.drop_last());
            self.run(ops.drop_last()).law_clock_monotonic(ops.last());
        }
    }

    // ---------------------------------------------------------------
    // Timed waits
    // ---------------------------------------------------------------

    /// Whether task `tid` either still sleeps as `asleep` describes it, or
    /// the clock has reached the deadline of that sleep.
    pub open spec fn rested(self, tid: int, asleep: ContextView<A>) -> bool {
        ||| self.clock >= asleep.deadline()
        ||| (self.task(tid) matches Some(c) && c.state == asleep.state && c.wait_start
            == asleep.wait_start)
    }

    /// A task in a timed wait stays in it, through every operation, until
    /// the clock has reached its deadline.
    pub proof fn law_sleep_lasts(self, op: Op<A>, tid: int, asleep: ContextView<A>)
        requires
            self.inv(),
            asleep.state is TimedWait,
            self.rested(tid, asleep),
        ensures
            self.apply(op).rested(tid, asleep),
    {
        self.law_clock_monotonic(op);
        if self.clock < asleep.deadline() {
            self.lemma_op(op);
        }
    }

    /// The delay of a timed wait is never less than was asked for: a task
    /// that sleeps for some ticks from the tick at which its wait began is,
    /// after any sequence of operations, either still asleep or the clock
    /// has reached that tick plus those ticks. So whenever it runs again,
    /// at least the ticks asked for have gone by.
    pub proof fn law_timed_wait_monotonic(self, ops: Seq<Op<A>>, tid: int, ticks: u64)
        requires
            self.inv(),
            self.task(tid) matches Some(c) && c.state == TaskState::TimedWait(ticks),
        ensures
            self.run(ops).rested(tid, self.task(tid)->0),
            self.run(ops).current == Some(tid) ==> self.run(ops).clock - self.task(tid)->0.wait_start
                >= ticks,
        decreases ops.len(),
    {
        let asleep = self.task(tid)->0;
        if ops.len() > 0 {
            self.law_timed_wait_monotonic(ops.drop_last(), tid, ticks);
            self.lemma_run_inv(ops.drop_last());
            self.run(ops.drop_last()).law_sleep_lasts(ops.last(), tid, asleep);
        }
        self.lemma_run_inv(ops);
    }

    /// A timed yield delays for at least the time asked for. The running
    /// task yields at tick `now` for `ticks` ticks; whatever operations
    /// follow, whenever the task is running again the clock shows at least
    /// `now` plus `ticks`.
    pub proof fn law_timed_yield(self, ticks: u64, now: u64, resume: JumpPoint, ops: Seq<Op<A>>)
        requires
            self.inv(),
            self.current is Some,
            !self.overflows(),
        ensures
            self.after_sleep(ticks, now as int, resume).task(self.current->0)->0.state
                == TaskState::TimedWait(ticks),
            self.after_sleep(ticks, now as int, resume).task(self.current->0)->0.wait_start >= now,
            self.after_sleep(ticks, now as int, resume).run(ops).current == self.current
                ==> self.after_sleep(ticks, now as int, resume).run(ops).clock >= now + ticks,
    {
        let t = self.current->0;
        let asleep = self.after_sleep(ticks, now as int, resume);
        self.lemma_after_sleep_inv(ticks, now, resume);
        asleep.law_timed_wait_monotonic(ops, t, ticks);
    }

    // ---------------------------------------------------------------
    // Exit and wait
    // ---------------------------------------------------------------

    /// The constraint on an operation that it does not reap task `tid`.
    pub open spec fn sparing(tid: int) -> spec_fn(SchedulerView<A>, Op<A>) -> bool {
        |s: SchedulerView<A>, op: Op<A>| s.reaps(op) != Some(tid)
    }

    /// The constraint on an operation that it makes no task.
    pub open spec fn barren() -> spec_fn(SchedulerView<A>, Op<A>) -> bool {
        |s: SchedulerView<A>, op: Op<A>| !(op is AddTask)
    }

    /// A zombie stays the zombie it is, with the status it ended with,
    /// through every operation but the wait that reaps it.
    pub proof fn law_zombie_stays(self, op: Op<A>, tid: int)
        requires
            self.inv(),
            self.zombie(tid),
            self.reaps(op) != Some(tid),
        ensures
            self.apply(op).zombie(tid),
            self.apply(op).status_of(tid) == self.status_of(tid),
    {
        self.lemma_op(op);
    }

    /// A zombie stays the zombie it is through every sequence of
    /// operations of which none reaps it.
    pub proof fn law_zombie_stays_run(self, ops: Seq<Op<A>>, tid: int)
        requires
            self.inv(),
            self.zombie(tid),
            self.always(ops, Self::sparing(tid)),
        ensures
            self.run(ops).zombie(tid),
            self.run(ops).status_of(tid) == self.status_of(tid),
        decreases ops.len(),
    {
        if ops.len() > 0 {
            self.law_zombie_stays_run(ops.drop_last(), tid);
            self.lemma_run_inv(ops.drop_last());
            self.run(ops.drop_last()).law_zombie_stays(ops.last(), tid);
        }
    }

    /// A wait for a zombie reaps it and reports the status it ended with.
    pub proof fn law_wait_reaps(self, tid: i32, nohang: bool, resume: JumpPoint)
        requires
            self.inv(),
            self.zombie(tid as int),
        ensures
            self.wait_result(WaitTarget::Task(tid), nohang) == Ok::<Waited, CocoError>(
                Waited::Reaped { tid, status: self.status_of(tid as int) },
            ),
            !self.after_wait(WaitTarget::Task(tid), nohang, resume).has(tid as int),
    {
    }

    /// The status that a task ends with is the status that a later wait for
    /// it reports: after the running task has ended with `status`, and after
    /// any operations since of which none has reaped it, a wait for it reaps
    /// it and reports exactly `status`.
    pub proof fn law_exit_status_fidelity(
        self,
        status: u32,
        ops: Seq<Op<A>>,
        nohang: bool,
        resume: JumpPoint,
    )
        requires
            self.inv(),
            self.current is Some,
            self.after_exit(status).always(ops, Self::sparing(self.current->0)),
        ensures
            self.after_exit(status).run(ops).wait_result(
                WaitTarget::Task(self.current->0 as i32),
                nohang,
            ) == Ok::<Waited, CocoError>(
                Waited::Reaped {
                    tid: self.current->0 as i32,
                    status: ExitStatus::Exited(status),
                },
            ),
    {
        let t = self.current->0;
        let z = self.after_exit(status);
        self.lemma_exited_inv(ExitStatus::Exited(status));
        z.law_zombie_stays_run(ops, t);
        z.lemma_run_inv(ops);
        z.run(ops).law_wait_reaps(t as i32, nohang, resume);
    }

    /// A wait that is not to block, for a task that has not ended, is left
    /// pending and changes nothing: the caller is not suspended.
    pub proof fn law_nonblocking_wait(self, tid: i32, resume: JumpPoint)
        requires
            self.inv(),
            self.alive(tid as int),
        ensures
            self.wait_result(WaitTarget::Task(tid), true) == Ok::<Waited, CocoError>(
                Waited::Pending,
            ),
            self.after_wait(WaitTarget::Task(tid), true, resume) == self,
    {
    }

    /// An identifier without a task stays without one through every
    /// operation that makes no task.
    pub proof fn law_absent_stays(self, op: Op<A>, tid: int)
        requires
            self.inv(),
            !self.has(tid),
            !(op is AddTask),
        ensures
            !self.apply(op).has(tid),
    {
        self.lemma_op(op);
    }

    /// An identifier without a task stays without one through every
    /// sequence of operations of which none makes a task.
    pub proof fn law_absent_stays_run(self, ops: Seq<Op<A>>, tid: int)
        requires
            self.inv(),
            !self.has(tid),
            self.always(ops, Self::barren()),
        ensures
            !self.run(ops).has(tid),
        decreases ops.len(),
    {
        if ops.len() > 0 {
            self.law_absent_stays_run(ops.drop_last(), tid);
            self.lemma_run_inv(ops.drop_last());
            self.run(ops.drop_last()).law_absent_stays(ops.last(), tid);
        }
    }

    /// A task is reaped once: after a wait has reaped a task, and until a
    /// task is made that takes its identifier, every wait for that
    /// identifier fails with `UnknownTask`, and none reports a status.
    pub proof fn law_reap_once(
        self,
        target: WaitTarget,
        nohang: bool,
        resume: JumpPoint,
        ops: Seq<Op<A>>,
        again_nohang: bool,
    )
        requires
            self.inv(),
            self.reapable(target) is Some,
            self.after_wait(target, nohang, resume).always(ops, Self::barren()),
        ensures
            self.wait_result(target, nohang) == Ok::<Waited, CocoError>(
                Waited::Reaped {
                    tid: self.reapable(target)->0 as i32,
                    status: self.status_of(self.reapable(target)->0),
                },
            ),
            self.after_wait(target, nohang, resume).run(ops).wait_result(
                WaitTarget::Task(self.reapable(target)->0 as i32),
                again_nohang,
            ) == Err::<Waited, CocoError>(CocoError::UnknownTask),
    {
        let z = self.reapable(target)->0;
        let e = self.after_wait(target, nohang, resume);
        self.lemma_after_wait_inv(target, nohang, resume);
        self.lemma_reapable(target);
        e.law_absent_stays_run(ops, z);
    }

    // ---------------------------------------------------------------
    // Arguments
    // ---------------------------------------------------------------

    /// The constraint on an operation that it neither is task `tid` taking
    /// its arguments nor reaps task `tid`.
    pub open spec fn keeping_args(tid: int) -> spec_fn(SchedulerView<A>, Op<A>) -> bool {
        |s: SchedulerView<A>, op: Op<A>|
            s.reaps(op) != Some(tid) && !(op is TakeArgs && s.current == Some(tid))
    }

    /// A task keeps the arguments and the entry it was made with through
    /// every operation, but for its own taking of the arguments and for the
    /// wait that reaps it.
    pub proof fn law_args_stay(self, op: Op<A>, tid: int)
        requires
            self.inv(),
            self.has(tid),
            Self::keeping_args(tid)(self, op),
        ensures
            self.apply(op).has(tid),
            self.apply(op).task(tid)->0.args == self.task(tid)->0.args,
            self.apply(op).task(tid)->0.entry == self.task(tid)->0.entry,
    {
        self.lemma_op(op);
    }

    /// The arguments handed to `add_task` are the arguments of the task
    /// made, and stay so, through any sequence of operations, until the
    /// task takes them or is reaped.
    pub proof fn law_args_round_trip(self, entry: Entry, args: Option<A>, ops: Seq<Op<A>>)
        requires
            self.inv(),
            !self.full(),
            self.after_add_task(entry, args).always(ops, Self::keeping_args(self.free_tid()->0)),
        ensures
            self.after_add_task(entry, args).run(ops).has(self.free_tid()->0),
            self.after_add_task(entry, args).run(ops).task(self.free_tid()->0)->0.args == args,
            self.after_add_task(entry, args).run(ops).task(self.free_tid()->0)->0.entry == entry,
        decreases ops.len(),
    {
        let tid = self.free_tid()->0;
        let made = self.after_add_task(entry, args);
        self.lemma_free_tid();
        if ops.len() > 0 {
            self.law_args_round_trip(entry, args, ops.drop_last());
            self.lemma_spawned_inv(tid, entry, args);
            made.lemma_run_inv(ops.drop_last());
            made.run(ops.drop_last()).law_args_stay(ops.last(), tid);
        }
    }

    /// The running task takes its arguments exactly once: it is given just
    /// what it has, and after that it has none, so that a second attempt
    /// fails with `InvalidArgument`. So does the attempt of a task that was
    /// made without arguments.
    pub proof fn law_args_taken_once(self)
        requires
            self.inv(),
        ensures
            match self.current_args() {
                Some(p) => self.take_args_result() == Ok::<A, CocoError>(p),
                None => self.take_args_result() == Err::<A, CocoError>(CocoError::InvalidArgument),
            },
            self.after_take_args().take_args_result() == Err::<A, CocoError>(
                CocoError::InvalidArgument,
            ),
    {
    }

    // ---------------------------------------------------------------
    // Frames
    // ---------------------------------------------------------------

    /// The constraint on an operation that task `tid` is not running when
    /// it is applied, and that it does not reap task `tid`.
    pub open spec fn resting(tid: int) -> spec_fn(SchedulerView<A>, Op<A>) -> bool {
        |s: SchedulerView<A>, op: Op<A>| s.reaps(op) != Some(tid) && s.current != Some(tid)
    }

    /// Whether task `tid` still has the frame of `suspended`, and either
    /// has ended or still goes on where `suspended` does.
    pub open spec fn preserved(self, tid: int, suspended: ContextView<A>) -> bool {
        &&& self.task(tid) matches Some(c)
        &&& c.frame == suspended.frame
        &&& (c.state is Zombie || c.resume_point == suspended.resume_point)
    }

    /// No operation touches the saved frame of a task that is not running:
    /// whatever another task does, and whatever comes of it, the frame of a
    /// suspended task stays byte for byte what it was. Its resume point
    /// stays too, unless the task is ended.
    pub proof fn law_frame_stays(self, op: Op<A>, tid: int, suspended: ContextView<A>)
        requires
            self.inv(),
            self.preserved(tid, suspended),
            Self::resting(tid)(self, op),
        ensures
            self.apply(op).preserved(tid, suspended),
    {
        self.lemma_op(op);
    }

    /// The frame of a task stays what it was through every sequence of
    /// operations during which the task is not running and is not reaped.
    pub proof fn law_frame_stays_run(self, ops: Seq<Op<A>>, tid: int, suspended: ContextView<A>)
        requires
            self.inv(),
            self.preserved(tid, suspended),
            self.always(ops, Self::resting(tid)),
        ensures
            self.run(ops).preserved(tid, suspended),
        decreases ops.len(),
    {
        if ops.len() > 0 {
            self.law_frame_stays_run(ops.drop_last(), tid, suspended);
            self.lemma_run_inv(ops.drop_last());
            self.run(ops.drop_last()).law_frame_stays(ops.last(), tid, suspended);
        }
    }

    /// What a task had on the shared stack when it was suspended, it finds
    /// there again when it is resumed. The running task is suspended, going
    /// on at `resume`; any operations follow during which it does not run
    /// and is not reaped; then it is switched in. Its live stack is then
    /// byte for byte, and at the same addresses, what it was at the
    /// suspension, and it goes on at `resume`.
    pub proof fn law_frame_round_trip(self, resume: JumpPoint, ops: Seq<Op<A>>, caller: JumpPoint)
        requires
            self.inv(),
            self.current is Some,
            !self.overflows(),
            self.after_yield(resume).always(ops, Self::resting(self.current->0)),
            self.after_yield(resume).run(ops).switch_in_result(self.current->0) matches Ok(
                SchedAction::Run(_),
            ),
        ensures
            self.after_yield(resume).run(ops).after_switch_in(self.current->0, caller).stack.live()
                == self.stack.live(),
            self.after_yield(resume).run(ops).after_switch_in(self.current->0, caller).stack.sp
                == self.stack.sp,
            self.after_yield(resume).run(ops).after_switch_in(self.current->0, caller).current
                == self.current,
            self.after_yield(resume).run(ops).switch_in_result(self.current->0) matches Ok(
                SchedAction::Run(d),
            ) && d.resume == Resume::At(resume),
    {
        let t = self.current->0;
        let out = self.after_yield(resume);
        let suspended = out.task(t)->0;
        self.lemma_after_yield_inv(resume);
        out.law_frame_stays_run(ops, t, suspended);
        out.lemma_run_inv(ops);
        let later = out.run(ops);
        later.lemma_switched_in_inv(t, caller);
        lemma_save_restore(self.task(t)->0.frame, self.stack, later.stack);
    }

    /// A task whose live stack is wider than its snapshot buffer harms no
    /// other task. The attempt to suspend it fails with
    /// `StackSnapshotOverflow` and ends it as aborted. Every other task
    /// keeps its context, frame and all, but that a task that was blocked
    /// waiting for the aborted one can run again.
    pub proof fn law_overflow_contained(self, resume: JumpPoint, other: int)
        requires
            self.inv(),
            self.current is Some,
            self.overflows(),
            self.has(other),
            self.current != Some(other),
        ensures
            self.suspend_result() == Err::<JumpPoint, CocoError>(CocoError::StackSnapshotOverflow),
            self.after_yield(resume).current is None,
            self.after_yield(resume).task(self.current->0) == Some(
                self.task(self.current->0)->0.ended(ExitStatus::Aborted),
            ),
            self.after_yield(resume).task(other) == Some(
                if self.task(other)->0.waits_for(self.current->0) {
                    self.task(other)->0.woken()
                } else {
                    self.task(other)->0
                },
            ),
            self.after_yield(resume).task(other)->0.frame == self.task(other)->0.frame,
    {
    }

    // ---------------------------------------------------------------
    // The scheduler loop
    // ---------------------------------------------------------------

    /// Whether task `tid` is next in turn, round-robin by identifier: it is
    /// runnable and, where it lies above the task dispatched last, no
    /// runnable task lies between the two; where it does not, no runnable
    /// task lies above the task dispatched last, and none below `tid`.
    pub open spec fn in_turn(self, tid: int) -> bool {
        &&& self.runnable(tid)
        &&& tid > self.last ==> forall|u: int| self.last < u < tid ==> !self.runnable(u)
        &&& tid <= self.last ==> forall|u: int| u < tid || self.last < u ==> !self.runnable(u)
    }

    /// Dispatch is deterministic, round-robin by identifier: the task
    /// picked is the one task that is next in turn, and no task is picked
    /// only where none is runnable.
    pub proof fn law_round_robin(self, tid: int)
        requires
            self.inv(),
        ensures
            self.pick() == Some(tid) <==> self.in_turn(tid),
            self.pick() is None <==> forall|u: int| !self.runnable(u),
    {
        self.lemma_first_runnable(self.last);
        self.lemma_first_runnable(0);
    }

    /// A task that yields gives way: while another task is runnable, the
    /// task that was dispatched last is not the one picked next.
    pub proof fn law_yield_gives_way(self, other: int)
        requires
            self.inv(),
            self.runnable(other),
            other != self.last,
        ensures
            self.pick() is Some,
            self.pick() != Some(self.last),
    {
        self.lemma_first_runnable(self.last);
        self.lemma_first_runnable(0);
    }

    /// A signal is delivered once. The handlers handed to the driver at a
    /// dispatch are those of the signals that were pending, and after the
    /// dispatch no signal is pending: until a signal is raised again, the
    /// next dispatch of the task invokes no handler.
    pub proof fn law_delivered_once(self, tid: int, caller: JumpPoint)
        requires
            self.inv(),
            self.switch_in_result(tid) matches Ok(SchedAction::Run(_)),
        ensures
            self.switch_in_result(tid) matches Ok(SchedAction::Run(d)) && d.handlers == self.task(
                tid,
            )->0.due_handlers(),
            self.after_switch_in(tid, caller).task(tid)->0.sig_bits == Set::<Signal>::empty(),
            self.after_switch_in(tid, caller).task(tid)->0.due_handlers()
                == HandlerTable::spec_none(),
            self.after_switch_in(tid, caller).task(tid)->0.handlers == self.task(tid)->0.handlers,
    {
    }

    /// The scheduler loop ends exactly when no task is running and no task
    /// in the table can run, sleeps or is blocked: every task left is a
    /// zombie. While one task has not ended, the loop goes on.
    pub proof fn law_finished(self, now: u64)
        requires
            self.inv(),
        ensures
            self.step_result(now as int) == Ok::<SchedAction, CocoError>(SchedAction::Finished)
                <==> self.current is None && forall|t: int| !self.alive(t),
    {
        if self.current is None {
            let s = self.ticked(now as int).promoted();
            assert forall|t: int| s.alive(t) == self.alive(t) by {}
            s.lemma_first_runnable(s.last);
            s.lemma_first_runnable(0);
            if forall|t: int| !self.alive(t) {
                assert forall|t: int| !s.runnable(t) by {
                    assert(!s.alive(t));
                }
            }
        }
    }

    /// A scheduler that is started is in a state that the invariant holds
    /// of. Its one task, the kernel task, is task 1, and it is running, on
    /// an empty stack.
    pub proof fn law_started(
        capacity: int,
        frame_capacity: int,
        stack: StackView,
        kernel: Entry,
        caller: JumpPoint,
    )
        requires
            1 <= capacity <= i32::MAX,
            0 <= frame_capacity,
            stack.wf(),
        ensures
            Self::started(capacity, frame_capacity, stack, kernel, caller).inv(),
            Self::started(capacity, frame_capacity, stack, kernel, caller).current == Some(1int),
            Self::started(capacity, frame_capacity, stack, kernel, caller).stack.depth() == 0,
            Self::started(capacity, frame_capacity, stack, kernel, caller).task(1)->0.entry
                == kernel,
            Self::started(capacity, frame_capacity, stack, kernel, caller).task(1)->0.args is None,
            forall|t: int|
                t != 1 ==> !Self::started(capacity, frame_capacity, stack, kernel, caller).has(t),
    {
        let e = Self::empty(capacity, frame_capacity, stack);
        e.lemma_spawned_inv(1, kernel, None);
        let made = e.spawned(1, kernel, None);
        made.lemma_switched_in_inv(1, caller);
    }

    /// A kernel task without children: once it has ended, the first turn
    /// of the scheduler loop ends the loop.
    pub proof fn law_kernel_alone(
        capacity: int,
        frame_capacity: int,
        stack: StackView,
        kernel: Entry,
        caller: JumpPoint,
        status: u32,
        now: u64,
    )
        requires
            1 <= capacity <= i32::MAX,
            0 <= frame_capacity,
            stack.wf(),
        ensures
            Self::started(capacity, frame_capacity, stack, kernel, caller).after_exit(
                status,
            ).step_result(now as int) == Ok::<SchedAction, CocoError>(SchedAction::Finished),
    {
        let s1 = Self::started(capacity, frame_capacity, stack, kernel, caller);
        Self::law_started(capacity, frame_capacity, stack, kernel, caller);
        let s2 = s1.after_exit(status);
        s1.lemma_exited_inv(ExitStatus::Exited(status));
        s2.law_finished(now);
    }

    /// A task that is dispatched for the first time starts at its entry,
    /// with the stack pointer at the base of the shared stack: nothing of
    /// the stack is in use.
    pub proof fn law_first_dispatch(self, tid: int, caller: JumpPoint)
        requires
            self.inv(),
            self.switch_in_result(tid) matches Ok(SchedAction::Run(d)) && d.resume is Start,
        ensures
            self.switch_in_result(tid) matches Ok(SchedAction::Run(d)) && d.resume == Resume::Start(
                self.task(tid)->0.entry,
            ),
            self.after_switch_in(tid, caller).stack.depth() == 0,
            self.after_switch_in(tid, caller).stack.sp == self.stack.base(),
            self.after_switch_in(tid, caller).current == Some(tid),
    {
        self.lemma_switched_in_inv(tid, caller);
    }

    /// At most one task is live. While no task is running, nothing of the
    /// shared stack is in use; when a task is switched in, the live stack
    /// is exactly its frame.
    pub proof fn law_one_live(self, tid: int, caller: JumpPoint)
        requires
            self.inv(),
        ensures
            self.current is None ==> self.stack.depth() == 0,
            self.switch_in_result(tid) matches Ok(SchedAction::Run(_)) ==> self.after_switch_in(
                tid,
                caller,
            ).stack.live() == self.task(tid)->0.frame.bytes,
    {
    }

    /// No task is blocked in vain. A task that is blocked waiting for a
    /// task waits for one that is in the table and has not ended; a task
    /// that is blocked waiting for any task is blocked only while no task
    /// is a zombie.
    pub proof fn law_waits_sound(self, waiter: int, target: WaitTarget)
        requires
            self.inv(),
            self.task(waiter) matches Some(c) && c.state == TaskState::BlockedOnWait(target),
        ensures
            match target {
                WaitTarget::Task(t) => self.alive(t as int),
                WaitTarget::Any => forall|z: int| !self.zombie(z),
            },
            self.reapable(target) is None,
    {
    }

    /// The end of a task wakes the tasks that wait for it: every task that
    /// was blocked waiting for the running task, or for any task, can run
    /// once the running task has ended.
    pub proof fn law_exit_wakes(self, status: u32, waiter: int)
        requires
            self.inv(),
            self.current is Some,
            self.task(waiter) matches Some(c) && c.waits_for(self.current->0),
        ensures
            self.after_exit(status).runnable(waiter),
    {
    }
}

} // verus!
