//! The scheduler: the task table, the running task, the clock and the
//! shared stack, as one explicit state.

use vstd::prelude::*;
use crate::context::Context;
use crate::error::CocoError;
use crate::jump::Entry;
use crate::jump::JumpPoint;
use crate::model::SchedulerView;
use crate::stack::SharedStack;

verus! {

/// The state of the runtime. Independent schedulers do not interfere.
pub struct Scheduler<A> {
    pub(crate) slots: Vec<Option<Context<A>>>,
    pub(crate) current: Option<i32>,
    pub(crate) clock: u64,
    pub(crate) last: i32,
    pub(crate) zombies: Vec<i32>,
    pub(crate) stack: SharedStack,
    pub(crate) frame_capacity: usize,
}

impl<A> Scheduler<A> {
    /// The model of this scheduler.
    pub open(crate) spec fn view(&self) -> SchedulerView<A> {
        SchedulerView {
            slots: Seq::new(
                self.slots.len() as nat,
                |i: int|
                    match self.slots[i] {
                        Some(c) => Some(c@),
                        None => None,
                    },
            ),
            current: match self.current {
                Some(t) => Some(t as int),
                None => None,
            },
            clock: self.clock as int,
            last: self.last as int,
            zombies: Seq::new(self.zombies.len() as nat, |i: int| self.zombies[i] as int),
            stack: self.stack@,
            frame_capacity: self.frame_capacity as int,
        }
    }

    /// The invariant of the scheduler. Every constructor establishes it and
    /// every operation keeps it.
    pub open(crate) spec fn wf(&self) -> bool {
        &&& self@.inv()
        &&& forall|i: int|
            0 <= i < self.slots.len() ==> (#[trigger] self.slots[i] matches Some(c) ==> c.wf())
    }

    /// The invariant of the scheduler holds of its model.
    pub proof fn lemma_wf(&self)
        requires
            self.wf(),
        ensures
            self@.inv(),
    {
    }

    /// A scheduler with no task: a table of `max_tasks` slots, a shared
    /// stack of `stack_size` bytes and, for each task to come, a snapshot
    /// buffer of `frame_capacity` bytes. The clock shows tick 0.
    pub fn new(max_tasks: u16, frame_capacity: usize, stack_size: usize) -> (s: Scheduler<A>)
        ensures
            s.wf(),
            s@ == SchedulerView::<A>::empty(
                max_tasks as int,
                frame_capacity as int,
                SharedStack::spec_zeroed(stack_size as int),
            ),
    {
        let mut slots: Vec<Option<Context<A>>> = Vec::new();
        let mut i: u16 = 0;
        while i < max_tasks
            invariant
                i <= max_tasks,
                slots.len() == i,
                forall|j: int| 0 <= j < i ==> slots[j] is None,
            decreases max_tasks - i,
        {
            slots.push(None);
            i = i + 1;
        }
        let s = Scheduler {
            slots,
            current: None,
            clock: 0,
            last: 0,
            zombies: Vec::new(),
            stack: SharedStack::new(stack_size),
            frame_capacity,
        };
        proof {
            let m = SchedulerView::<A>::empty(
                max_tasks as int,
                frame_capacity as int,
                SharedStack::spec_zeroed(stack_size as int),
            );
            assert(s@.slots =~= m.slots);
            assert(s@.zombies =~= m.zombies);
        }
        s
    }

    /// Starts the runtime: a scheduler as `new` makes it, with one task,
    /// the kernel task, which starts at `kernel` without arguments. The
    /// kernel task is task 1 and is the running task: the driver runs it
    /// from its entry, on an empty stack, and then enters the scheduler
    /// loop, which goes on at `caller`.
    ///
    /// Fails with `ExhaustedTaskTable` exactly when `max_tasks` is 0.
    pub fn coco_start(
        max_tasks: u16,
        frame_capacity: usize,
        stack_size: usize,
        kernel: Entry,
        caller: JumpPoint,
    ) -> (r: Result<Scheduler<A>, CocoError>)
        ensures
            match r {
                Ok(s) => max_tasks > 0 && s.wf() && s@ == SchedulerView::<A>::started(
                    max_tasks as int,
                    frame_capacity as int,
                    SharedStack::spec_zeroed(stack_size as int),
                    kernel,
                    caller,
                ),
                Err(e) => max_tasks == 0 && e == CocoError::ExhaustedTaskTable,
            },
    {
        let mut s: Scheduler<A> = Scheduler::new(max_tasks, frame_capacity, stack_size);
        let ghost pre = s@;
        match s.add_task(kernel, None) {
            Ok(tid) => {
                proof {
                    assert(!pre.has(1));
                }
                match s.switch_in(tid, caller) {
                    Ok(_) => Ok(s),
                    Err(e) => Err(e),
                }
            },
            Err(e) => {
                proof {
                    if max_tasks > 0 {
                        assert(!pre.has(1));
                    }
                }
                Err(e)
            },
        }
    }

    /// Makes a task that starts at `task` with `args`, and returns its
    /// identifier: the lowest one that no task in the table has. The task is
    /// runnable. It owns `args` from now on.
    ///
    /// Fails with `ExhaustedTaskTable`, and changes nothing, exactly when
    /// every slot of the table is taken.
    pub fn add_task(&mut self, task: Entry, args: Option<A>) -> (r: Result<i32, CocoError>)
        requires
            old(self).wf(),
        ensures
            final(self).wf(),
            r == old(self)@.add_task_result(),
            final(self)@ == old(self)@.after_add_task(task, args),
            match r {
                Ok(tid) => old(self)@.next_free(tid as int) && final(self)@ == old(self)@.spawned(
                    tid as int,
                    task,
                    args,
                ),
                Err(e) => e == CocoError::ExhaustedTaskTable && old(self)@.full() && final(self)@
                    == old(self)@,
            },
    {
        let n: usize = self.slots.len();
        let mut i: usize = 0;
        while i < n && self.slots[i].is_some()
            invariant
                i <= n,
                n == self.slots.len(),
                *self == *old(self),
                forall|j: int| 0 <= j < i ==> self.slots[j] is Some,
            decreases n - i,
        {
            i = i + 1;
        }
        if i >= n {
            return Err(CocoError::ExhaustedTaskTable);
        }
        let tid: i32 = (i + 1) as i32;
        let base: usize = self.stack.size();
        let c: Context<A> = Context::new(tid, task, args, self.clock, self.frame_capacity, base);
        self.slots[i] = Some(c);
        proof {
            let pre = old(self)@;
            let post = pre.spawned(tid as int, task, args);
            assert(self@.slots =~= post.slots);
            pre.lemma_spawned_inv(tid as int, task, args);
            pre.lemma_next_free_unique(tid as int);
        }
        Ok(tid)
    }

    /// A read-only look at the context of task `tid`.
    ///
    /// Fails with `UnknownTask` exactly when the table has no such task.
    pub fn get_context(&self, tid: i32) -> (r: Result<&Context<A>, CocoError>)
        requires
            self.wf(),
        ensures
            match r {
                Ok(c) => self@.task(tid as int) == Some(c@) && c.wf(),
                Err(e) => e == CocoError::UnknownTask && !self@.has(tid as int),
            },
    {
        if tid < 1 || tid as usize > self.slots.len() {
            return Err(CocoError::UnknownTask);
        }
        match &self.slots[(tid - 1) as usize] {
            Some(c) => Ok(c),
            None => Err(CocoError::UnknownTask),
        }
    }

    /// A read-only look at the context of the running task.
    ///
    /// Fails with `InvalidArgument` exactly when no task is running.
    pub fn current_context(&self) -> (r: Result<&Context<A>, CocoError>)
        requires
            self.wf(),
        ensures
            match r {
                Ok(c) => self@.current is Some && self@.task(self@.current->0) == Some(c@)
                    && c.wf(),
                Err(e) => e == CocoError::InvalidArgument && self@.current is None,
            },
    {
        match self.current {
            Some(t) => {
                match &self.slots[(t - 1) as usize] {
                    Some(c) => Ok(c),
                    None => Err(CocoError::InvalidArgument),
                }
            },
            None => Err(CocoError::InvalidArgument),
        }
    }

    /// How many tasks the table can hold.
    pub fn capacity(&self) -> (n: usize)
        ensures
            n == self@.capacity(),
    {
        self.slots.len()
    }

    /// How many bytes each snapshot buffer holds.
    pub fn frame_capacity(&self) -> (n: usize)
        ensures
            n == self@.frame_capacity,
    {
        self.frame_capacity
    }

    /// The task that is running, if one is.
    pub fn current(&self) -> (r: Option<i32>)
        ensures
            match r {
                Some(t) => self@.current == Some(t as int),
                None => self@.current is None,
            },
    {
        self.current
    }

    /// The latest tick that the scheduler was told of.
    pub fn clock(&self) -> (t: u64)
        ensures
            t == self@.clock,
    {
        self.clock
    }

    /// The shared stack, to read.
    pub fn stack(&self) -> (s: &SharedStack)
        ensures
            s@ == self@.stack,
            self.wf() ==> s@.wf(),
    {
        &self.stack
    }
}

} // verus!
