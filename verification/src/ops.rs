//! The operations of the scheduler as values, so that what holds after
//! every operation, and after every sequence of operations, can be stated.

use vstd::prelude::*;
use crate::context::ContextView;
use crate::context::ExitStatus;
use crate::context::TaskState;
use crate::context::WaitTarget;
use crate::jump::Entry;
use crate::jump::JumpPoint;
use crate::model::SchedulerView;
use crate::signal::Signal;

verus! {

/// One operation on a scheduler, with its arguments.
pub enum Op<A> {
    /// `add_task`.
    AddTask { entry: Entry, args: Option<A> },
    /// `tick`.
    Tick { now: u64 },
    /// `promote`.
    Promote,
    /// `switch_in`.
    SwitchIn { tid: i32, caller: JumpPoint },
    /// `step`.
    Step { now: u64, caller: JumpPoint },
    /// `switch_out` and `coco_yield`.
    Yield { resume: JumpPoint },
    /// `yield_for_ms` and `yield_for_s`, by the ticks of the wait.
    Sleep { ticks: u64, now: u64, resume: JumpPoint },
    /// `coco_exit`.
    Exit { status: u32 },
    /// `coco_waitpid` and `wait`.
    Wait { target: WaitTarget, nohang: bool, resume: JumpPoint },
    /// `take_args`.
    TakeArgs,
    /// `stack_push`.
    Push { byte: u8 },
    /// `stack_pop`.
    Pop,
    /// `stack_write`.
    Write { offset: usize, byte: u8 },
    /// `raise`.
    Raise { tid: i32, sig: Signal },
    /// `set_handler`.
    SetHandler { tid: i32, sig: Signal, handler: Option<Entry> },
}

impl<A> SchedulerView<A> {
    /// The state after the operation `op`.
    pub open spec fn apply(self, op: Op<A>) -> SchedulerView<A> {
        match op {
            Op::AddTask { entry, args } => self.after_add_task(entry, args),
            Op::Tick { now } => self.ticked(now as int),
            Op::Promote => self.promoted(),
            Op::SwitchIn { tid, caller } => self.after_switch_in(tid as int, caller),
            Op::Step { now, caller } => self.after_step(now as int, caller),
            Op::Yield { resume } => self.after_yield(resume),
            Op::Sleep { ticks, now, resume } => self.after_sleep(ticks, now as int, resume),
            Op::Exit { status } => self.after_exit(status),
            Op::Wait { target, nohang, resume } => self.after_wait(target, nohang, resume),
            Op::TakeArgs => self.after_take_args(),
            Op::Push { byte } => self.after_push(byte),
            Op::Pop => self.after_pop(),
            Op::Write { offset, byte } => self.after_write(offset as int, byte),
            Op::Raise { tid, sig } => self.after_raise(tid as int, sig),
            Op::SetHandler { tid, sig, handler } => self.after_set_handler(
                tid as int,
                sig,
                handler,
            ),
        }
    }

    /// The state after the operations `ops`, in their order.
    pub open spec fn run(self, ops: Seq<Op<A>>) -> SchedulerView<A>
        decreases ops.len(),
    {
        if ops.len() == 0 {
            self
        } else {
            self.run(ops.drop_last()).apply(ops.last())
        }
    }

    /// Whether `allowed` holds of every operation of `ops` and the state
    /// that it is applied to, when `ops` are applied to this state in their
    /// order.
    pub open spec fn always(
        self,
        ops: Seq<Op<A>>,
        allowed: spec_fn(SchedulerView<A>, Op<A>) -> bool,
    ) -> bool
        decreases ops.len(),
    {
        if ops.len() == 0 {
            true
        } else {
            self.always(ops.drop_last(), allowed) && allowed(
                self.run(ops.drop_last()),
                ops.last(),
            )
        }
    }

    /// The zombie that the operation `op` reaps, if it reaps one.
    pub open spec fn reaps(self, op: Op<A>) -> Option<int> {
        match op {
            Op::Wait { target, nohang, resume } => self.reapable(target),
            _ => None,
        }
    }

    /// A table that has a free identifier has a lowest one.
    pub proof fn lemma_has_next_free(self, free: int)
        requires
            1 <= free <= self.slots.len(),
            !self.has(free),
        ensures
            exists|t: int| self.next_free(t),
        decreases free,
    {
        if forall|u: int| 1 <= u < free ==> self.has(u) {
            assert(self.next_free(free));
        } else {
            let u = choose|u: int| 1 <= u < free && !self.has(u);
            self.lemma_has_next_free(u);
        }
    }

    /// Where the table is not full, the identifier that the next task gets
    /// is the lowest one without a task.
    pub proof fn lemma_free_tid(self)
        ensures
            match self.free_tid() {
                Some(t) => self.next_free(t),
                None => self.full(),
            },
    {
        if !self.full() {
            let u = choose|u: int| 1 <= u <= self.slots.len() && !self.has(u);
            self.lemma_has_next_free(u);
        }
    }

    /// What a wait reaps is a zombie.
    pub proof fn lemma_reapable(self, target: WaitTarget)
        requires
            self.inv(),
        ensures
            self.reapable(target) matches Some(z) ==> self.zombie(z),
    {
    }

    /// What an operation relies on: the task it makes gets the lowest free
    /// identifier, and the task it reaps is a zombie.
    pub proof fn lemma_op(self, op: Op<A>)
        requires
            self.inv(),
        ensures
            op is AddTask ==> (self.free_tid() matches Some(t) ==> self.next_free(t)),
            self.reaps(op) matches Some(z) ==> self.zombie(z),
    {
        self.lemma_free_tid();
    }

    /// The state after an attempt to switch a task in keeps the invariant.
    pub proof fn lemma_after_switch_in_inv(self, tid: int, caller: JumpPoint)
        requires
            self.inv(),
        ensures
            self.after_switch_in(tid, caller).inv(),
    {
        if self.current is None && self.runnable(tid) {
            match self.task(tid)->0.fatal_signal() {
                Some(signal) => {
                    self.lemma_zombified_inv(tid, ExitStatus::Signaled(signal));
                },
                None => {
                    self.lemma_switched_in_inv(tid, caller);
                },
            }
        }
    }

    /// The state after an attempt to suspend the running task keeps the
    /// invariant.
    pub proof fn lemma_after_yield_inv(self, resume: JumpPoint)
        requires
            self.inv(),
        ensures
            self.after_yield(resume).inv(),
            self.after_yield(resume).current is None,
    {
        if self.current is Some {
            if self.overflows() {
                self.lemma_exited_inv(ExitStatus::Aborted);
            } else {
                self.lemma_switched_out_inv(resume);
            }
        }
    }

    /// Every operation keeps the invariant.
    pub proof fn lemma_apply_inv(self, op: Op<A>)
        requires
            self.inv(),
        ensures
            self.apply(op).inv(),
    {
        match op {
            Op::AddTask { entry, args } => {
                self.lemma_free_tid();
                match self.free_tid() {
                    Some(t) => {
                        self.lemma_spawned_inv(t, entry, args);
                    },
                    None => {},
                }
            },
            Op::Tick { now } => {
                self.lemma_ticked_inv(now as int);
            },
            Op::Promote => {
                self.lemma_promoted_inv();
            },
            Op::SwitchIn { tid, caller } => {
                self.lemma_after_switch_in_inv(tid as int, caller);
            },
            Op::Step { now, caller } => {
                if self.current is None {
                    self.lemma_ticked_inv(now as int);
                    self.ticked(now as int).lemma_promoted_inv();
                    let s = self.ticked(now as int).promoted();
                    match s.pick() {
                        Some(t) => {
                            s.lemma_after_switch_in_inv(t, caller);
                        },
                        None => {},
                    }
                }
            },
            Op::Yield { resume } => {
                self.lemma_after_yield_inv(resume);
            },
            Op::Sleep { ticks, now, resume } => {
                self.lemma_after_sleep_inv(ticks, now, resume);
            },
            Op::Exit { status } => {
                if self.current is Some {
                    self.lemma_exited_inv(ExitStatus::Exited(status));
                }
            },
            Op::Wait { target, nohang, resume } => {
                self.lemma_after_wait_inv(target, nohang, resume);
            },
            Op::TakeArgs => {
                match self.current_args() {
                    Some(p) => {
                        let t = self.current->0;
                        self.lemma_with_data_inv(t, ContextView { args: None, ..self.task(t)->0 });
                    },
                    None => {},
                }
            },
            Op::Push { .. }
            | Op::Pop
            | Op::Write { .. }
            | Op::Raise { .. }
            | Op::SetHandler { .. } => {},
        }
    }

    /// The state after an attempt to put the running task to sleep keeps
    /// the invariant.
    pub proof fn lemma_after_sleep_inv(self, ticks: u64, now: u64, resume: JumpPoint)
        requires
            self.inv(),
        ensures
            self.after_sleep(ticks, now as int, resume).inv(),
    {
        match self.current {
            Some(t) => {
                self.lemma_ticked_inv(now as int);
                let s = self.ticked(now as int);
                if s.overflows() {
                    s.lemma_exited_inv(ExitStatus::Aborted);
                } else {
                    s.lemma_switched_out_inv(resume);
                    let mid = s.switched_out(resume);
                    mid.lemma_with_state_inv(
                        t,
                        ContextView {
                            state: TaskState::TimedWait(ticks),
                            wait_start: mid.clock,
                            ..mid.task(t)->0
                        },
                    );
                }
            },
            None => {},
        }
    }

    /// The state after a wait keeps the invariant.
    pub proof fn lemma_after_wait_inv(self, target: WaitTarget, nohang: bool, resume: JumpPoint)
        requires
            self.inv(),
        ensures
            self.after_wait(target, nohang, resume).inv(),
    {
        self.lemma_reapable(target);
        match self.reapable(target) {
            Some(z) => {
                self.lemma_reaped_inv(z);
            },
            None => {
                if self.awaitable(target) && !nohang {
                    match self.current {
                        Some(c) => {
                            if self.overflows() {
                                self.lemma_exited_inv(ExitStatus::Aborted);
                            } else {
                                self.lemma_switched_out_inv(resume);
                                let mid = self.switched_out(resume);
                                mid.lemma_with_state_inv(
                                    c,
                                    ContextView {
                                        state: TaskState::BlockedOnWait(target),
                                        ..mid.task(c)->0
                                    },
                                );
                            }
                        },
                        None => {},
                    }
                }
            },
        }
    }

    /// Every sequence of operations keeps the invariant.
    pub proof fn lemma_run_inv(self, ops: Seq<Op<A>>)
        requires
            self.inv(),
        ensures
            self.run(ops).inv(),
        decreases ops.len(),
    {
        if ops.len() > 0 {
            self.lemma_run_inv(ops.drop_last());
            self.run(ops.drop_last()).lemma_apply_inv(ops.last());
        }
    }
}

} // verus!
