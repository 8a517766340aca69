//! The task context: everything that the runtime keeps about one task.

use vstd::prelude::*;
use crate::frame::Snapshot;
use crate::frame::SnapshotView;
use crate::jump::Entry;
use crate::jump::JumpPoint;
use crate::signal::HandlerTable;
use crate::signal::Signal;
use crate::signal::SignalSet;

verus! {

/// How a task came to its end.
#[derive(Clone, Copy, Debug, PartialEq, Eq, Structural)]
pub enum ExitStatus {
    /// The task called `coco_exit` with this status.
    Exited(u32),
    /// The task could not be suspended, because its live stack was wider
    /// than its snapshot buffer, and was aborted. It has no status of its own.
    Aborted,
    /// The task was ended by a signal for which it had no handler.
    Signaled(Signal),
}

/// Whom a task waits for.
#[derive(Clone, Copy, Debug, PartialEq, Eq, Structural)]
pub enum WaitTarget {
    /// Any task but the waiting task itself.
    Any,
    /// The task with this identifier.
    Task(i32),
}

/// The state of a task that is in the table. A task that was reaped has no
/// entry in the table, and so no state.
#[derive(Clone, Copy, Debug, PartialEq, Eq, Structural)]
pub enum TaskState {
    /// The task can be dispatched. The running task is in this state too.
    Runnable,
    /// The task sleeps for this many ticks, counted from its `wait_start`.
    TimedWait(u64),
    /// The task waits for another task to become a zombie.
    BlockedOnWait(WaitTarget),
    /// The task has ended and was not reaped yet.
    Zombie(ExitStatus),
}

/// The mathematical model of a [`Context`].
pub struct ContextView<A> {
    /// The identifier of the task.
    pub tid: int,
    /// The code that the task starts at.
    pub entry: Entry,
    /// Where the scheduler loop goes on when the task suspends.
    pub caller: Option<JumpPoint>,
    /// Where the task goes on when it is dispatched again; `None` until it
    /// suspends for the first time, and again once it has ended.
    pub resume_point: Option<JumpPoint>,
    /// The signals raised against the task and not delivered yet.
    pub sig_bits: Set<Signal>,
    /// The handlers that the task has registered.
    pub handlers: HandlerTable,
    /// The tick at which the task entered its last timed wait, or was made.
    pub wait_start: int,
    /// The status with which the task ended, once it has.
    pub exit_status: Option<ExitStatus>,
    /// The arguments that the task was made with, until it takes them.
    pub args: Option<A>,
    /// The bytes of the shared stack that the task was using when it was
    /// last suspended.
    pub frame: SnapshotView,
    /// The state of the task.
    pub state: TaskState,
}

impl<A> ContextView<A> {
    /// The context of a task made at tick `now`, with an empty frame at the
    /// base of the shared stack.
    pub open spec fn fresh(
        tid: int,
        entry: Entry,
        args: Option<A>,
        now: int,
        frame_capacity: int,
        base: int,
    ) -> ContextView<A> {
        ContextView {
            tid,
            entry,
            caller: None,
            resume_point: None,
            sig_bits: Set::empty(),
            handlers: HandlerTable::spec_none(),
            wait_start: now,
            exit_status: None,
            args,
            frame: SnapshotView::fresh(frame_capacity, base),
            state: TaskState::Runnable,
        }
    }

    /// The tick from which a task in a timed wait can run again.
    pub open spec fn deadline(self) -> int {
        match self.state {
            TaskState::TimedWait(ticks) => self.wait_start + ticks,
            _ => self.wait_start,
        }
    }

    /// Whether the task is in a timed wait whose deadline `clock` has reached.
    pub open spec fn due(self, clock: int) -> bool {
        self.state is TimedWait && clock >= self.deadline()
    }

    /// Whether the task is blocked and would be woken by `tid` becoming a
    /// zombie.
    pub open spec fn waits_for(self, tid: int) -> bool {
        self.state == TaskState::BlockedOnWait(WaitTarget::Any) || (
        self.state matches TaskState::BlockedOnWait(WaitTarget::Task(t)) && t == tid)
    }

    /// Whether the task still keeps the scheduler loop going: it can run, or
    /// it sleeps, or it is blocked.
    pub open spec fn alive(self) -> bool {
        !(self.state is Zombie)
    }

    /// Whether `sig` is pending and has no handler.
    pub open spec fn unhandled(self, sig: Signal) -> bool {
        self.sig_bits.contains(sig) && self.handlers.spec_get(sig) is None
    }

    /// The first pending signal, in the order of the kinds, that has no
    /// handler.
    pub open spec fn fatal_signal(self) -> Option<Signal> {
        if self.unhandled(Signal::Interrupt) {
            Some(Signal::Interrupt)
        } else if self.unhandled(Signal::Terminate) {
            Some(Signal::Terminate)
        } else if self.unhandled(Signal::User) {
            Some(Signal::User)
        } else {
            None
        }
    }

    /// The handler to invoke for `sig` at the next dispatch: the registered
    /// one if `sig` is pending, none otherwise.
    pub open spec fn due_handler(self, sig: Signal) -> Option<Entry> {
        if self.sig_bits.contains(sig) {
            self.handlers.spec_get(sig)
        } else {
            None
        }
    }

    /// The handlers to invoke at the next dispatch, by kind.
    pub open spec fn due_handlers(self) -> HandlerTable {
        HandlerTable {
            interrupt: self.due_handler(Signal::Interrupt),
            terminate: self.due_handler(Signal::Terminate),
            user: self.due_handler(Signal::User),
        }
    }

    /// The context once the task has ended with `status`. Its resume point
    /// is never used again.
    pub open spec fn ended(self, status: ExitStatus) -> ContextView<A> {
        ContextView {
            exit_status: Some(status),
            state: TaskState::Zombie(status),
            resume_point: None,
            ..self
        }
    }

    /// The context once the task was woken from a blocking wait.
    pub open spec fn woken(self) -> ContextView<A> {
        ContextView { state: TaskState::Runnable, ..self }
    }

    /// What holds of every context in the table of a scheduler whose clock
    /// shows `clock`, whose snapshot buffers hold `frame_capacity` bytes and
    /// whose shared stack has `stack_size` bytes.
    pub open spec fn wf(self, clock: int, frame_capacity: int, stack_size: int) -> bool {
        &&& self.frame.wf()
        &&& self.frame.capacity == frame_capacity
        &&& self.frame.start + self.frame.bytes.len() == stack_size
        &&& 0 <= self.wait_start <= clock
        &&& (self.resume_point is None && !(self.state is Zombie) ==> self.frame.bytes.len() == 0)
        &&& match self.state {
            TaskState::Zombie(status) => self.exit_status == Some(status),
            _ => self.exit_status is None,
        }
    }
}

/// The context of one task.
pub struct Context<A> {
    pub(crate) tid: i32,
    pub(crate) entry: Entry,
    pub(crate) caller: Option<JumpPoint>,
    pub(crate) resume_point: Option<JumpPoint>,
    pub(crate) sig_bits: SignalSet,
    pub(crate) handlers: HandlerTable,
    pub(crate) wait_start: u64,
    pub(crate) exit_status: Option<ExitStatus>,
    pub(crate) args: Option<A>,
    pub(crate) frame: Snapshot,
    pub(crate) state: TaskState,
}

impl<A> Context<A> {
    /// The model of this context.
    pub open(crate) spec fn view(&self) -> ContextView<A> {
        ContextView {
            tid: self.tid as int,
            entry: self.entry,
            caller: self.caller,
            resume_point: self.resume_point,
            sig_bits: self.sig_bits@,
            handlers: self.handlers,
            wait_start: self.wait_start as int,
            exit_status: self.exit_status,
            args: self.args,
            frame: self.frame@,
            state: self.state,
        }
    }

    /// The parts of the context are well-formed. This holds of every context
    /// that a scheduler hands out.
    pub open(crate) spec fn wf(&self) -> bool {
        self.sig_bits.wf() && self.frame.wf()
    }

    /// A context for a new task.
    pub(crate) fn new(
        tid: i32,
        entry: Entry,
        args: Option<A>,
        now: u64,
        frame_capacity: usize,
        base: usize,
    ) -> (c: Context<A>)
        ensures
            c.wf(),
            c@ == ContextView::fresh(
                tid as int,
                entry,
                args,
                now as int,
                frame_capacity as int,
                base as int,
            ),
    {
        Context {
            tid,
            entry,
            caller: None,
            resume_point: None,
            sig_bits: SignalSet::empty(),
            handlers: HandlerTable::none(),
            wait_start: now,
            exit_status: None,
            args,
            frame: Snapshot::new(frame_capacity, base),
            state: TaskState::Runnable,
        }
    }

    /// The identifier of the task.
    pub fn tid(&self) -> (r: i32)
        ensures
            r == self@.tid,
    {
        self.tid
    }

    /// The code that the task starts at.
    pub fn entry(&self) -> (r: Entry)
        ensures
            r == self@.entry,
    {
        self.entry
    }

    /// The state of the task.
    pub fn state(&self) -> (r: TaskState)
        ensures
            r == self@.state,
    {
        self.state
    }

    /// The status with which the task ended, once it has.
    pub fn exit_status(&self) -> (r: Option<ExitStatus>)
        ensures
            r == self@.exit_status,
    {
        self.exit_status
    }

    /// The tick at which the task entered its last timed wait, or was made.
    pub fn wait_start(&self) -> (r: u64)
        ensures
            r == self@.wait_start,
    {
        self.wait_start
    }

    /// The tick from which the task, if it is in a timed wait, can run
    /// again: the tick at which its wait began plus the ticks asked for.
    /// `None` where the task is in no timed wait, or where that tick lies
    /// beyond the last tick that a clock can show.
    pub fn deadline(&self) -> (r: Option<u64>)
        ensures
            match r {
                Some(d) => self@.state is TimedWait && d == self@.deadline(),
                None => !(self@.state is TimedWait) || self@.deadline() > u64::MAX,
            },
    {
        match self.state {
            TaskState::TimedWait(ticks) => self.wait_start.checked_add(ticks),
            _ => None,
        }
    }

    /// The signals raised against the task and not delivered yet.
    pub fn sig_bits(&self) -> (r: SignalSet)
        ensures
            r@ == self@.sig_bits,
            self.wf() ==> r.wf(),
    {
        self.sig_bits
    }

    /// The handlers that the task has registered.
    pub fn handlers(&self) -> (r: HandlerTable)
        ensures
            r == self@.handlers,
    {
        self.handlers
    }

    /// Where the scheduler loop goes on when the task suspends.
    pub fn caller(&self) -> (r: Option<JumpPoint>)
        ensures
            r == self@.caller,
    {
        self.caller
    }

    /// Where the task goes on when it is dispatched again.
    pub fn resume_point(&self) -> (r: Option<JumpPoint>)
        ensures
            r == self@.resume_point,
    {
        self.resume_point
    }

    /// Whether the task still has the arguments it was made with.
    pub fn has_args(&self) -> (r: bool)
        ensures
            r == self@.args is Some,
    {
        self.args.is_some()
    }

    /// The snapshot buffer of the task, to read.
    pub fn frame(&self) -> (r: &Snapshot)
        ensures
            r@ == self@.frame,
            self.wf() ==> r.wf(),
    {
        &self.frame
    }

    /// The first pending signal, in the order of the kinds, for which the
    /// task has no handler.
    pub fn fatal_signal(&self) -> (r: Option<Signal>)
        ensures
            r == self@.fatal_signal(),
    {
        if self.sig_bits.contains(Signal::Interrupt) && self.handlers.get(
            Signal::Interrupt,
        ).is_none() {
            Some(Signal::Interrupt)
        } else if self.sig_bits.contains(Signal::Terminate) && self.handlers.get(
            Signal::Terminate,
        ).is_none() {
            Some(Signal::Terminate)
        } else if self.sig_bits.contains(Signal::User) && self.handlers.get(Signal::User).is_none() {
            Some(Signal::User)
        } else {
            None
        }
    }

    /// The handler to invoke for `sig` at the next dispatch.
    pub fn due_handler(&self, sig: Signal) -> (r: Option<Entry>)
        ensures
            r == self@.due_handler(sig),
    {
        if self.sig_bits.contains(sig) {
            self.handlers.get(sig)
        } else {
            None
        }
    }

    /// The handlers to invoke at the next dispatch, by kind.
    pub fn due_handlers(&self) -> (r: HandlerTable)
        ensures
            r == self@.due_handlers(),
    {
        HandlerTable {
            interrupt: self.due_handler(Signal::Interrupt),
            terminate: self.due_handler(Signal::Terminate),
            user: self.due_handler(Signal::User),
        }
    }
}

} // verus!
