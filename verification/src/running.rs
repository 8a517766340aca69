//! What the running task does to itself: it takes the arguments it was made
//! with, and it uses the shared stack.

use vstd::prelude::*;
use crate::context::ContextView;
use crate::error::CocoError;
use crate::scheduler::Scheduler;

verus! {

impl<A> Scheduler<A> {

    /// The running task takes the arguments it was made with. They are
    /// handed over once: after this, the task has none.
    ///
    /// Fails with `InvalidArgument`, and changes nothing, exactly when no
    /// task is running or the running task has no arguments: it was made
    /// without, or has taken them before.
    pub fn take_args(&mut self) -> (r: Result<A, CocoError>)
        requires
            old(self).wf(),
        ensures
            final(self).wf(),
            r == old(self)@.take_args_result(),
            final(self)@ == old(self)@.after_take_args(),
    {
        let ghost pre = self@;
        let tid: i32 = match self.current {
            Some(t) => t,
            None => {
                return Err(CocoError::InvalidArgument);
            },
        };
        let at: usize = (tid - 1) as usize;
        let taken: Option<A> = match &mut self.slots[at] {
            Some(c) => c.args.take(),
            None => None,
        };
        proof {
            let c = pre.task(tid as int)->0;
            let post = pre.with_task(tid as int, ContextView { args: None, ..c });
            assert(self@.slots =~= post.slots);
            pre.lemma_with_data_inv(tid as int, ContextView { args: None, ..c });
            if c.args is None {
                assert(post.slots =~= pre.slots);
            }
        }
        match taken {
            Some(a) => Ok(a),
            None => Err(CocoError::InvalidArgument),
        }
    }

    /// A look at the arguments of the running task, which keeps them.
    ///
    /// Fails with `InvalidArgument` exactly when no task is running or the
    /// running task has no arguments.
    pub fn see_args(&self) -> (r: Result<&A, CocoError>)
        requires
            self.wf(),
        ensures
            match self@.current_args() {
                Some(p) => r == Ok::<&A, CocoError>(&p),
                None => r == Err::<&A, CocoError>(CocoError::InvalidArgument),
            },
    {
        let tid: i32 = match self.current {
            Some(t) => t,
            None => {
                return Err(CocoError::InvalidArgument);
            },
        };
        let at: usize = (tid - 1) as usize;
        match &self.slots[at] {
            Some(c) => match &c.args {
                Some(a) => Ok(a),
                None => Err(CocoError::InvalidArgument),
            },
            None => Err(CocoError::InvalidArgument),
        }
    }

    /// The running task pushes `b` on the shared stack.
    ///
    /// Fails with `InvalidArgument`, and changes nothing, exactly when no
    /// task is running or the stack region is full.
    pub fn stack_push(&mut self, b: u8) -> (r: Result<(), CocoError>)
        requires
            old(self).wf(),
        ensures
            final(self).wf(),
            r == if old(self)@.can_push() {
                Ok::<(), CocoError>(())
            } else {
                Err::<(), CocoError>(CocoError::InvalidArgument)
            },
            final(self)@ == old(self)@.after_push(b),
    {
        let ghost pre = self@;
        if self.current.is_none() {
            return Err(CocoError::InvalidArgument);
        }
        let ok: bool = self.stack.push(b);
        proof {
            pre.lemma_with_stack_inv(self@.stack);
        }
        if ok {
            Ok(())
        } else {
            Err(CocoError::InvalidArgument)
        }
    }

    /// The running task pops the lowest byte of the shared stack.
    ///
    /// Fails with `InvalidArgument`, and changes nothing, exactly when no
    /// task is running or no byte of the stack is in use.
    pub fn stack_pop(&mut self) -> (r: Result<u8, CocoError>)
        requires
            old(self).wf(),
        ensures
            final(self).wf(),
            r == if old(self)@.can_reach(0) {
                Ok::<u8, CocoError>(old(self)@.stack.live()[0])
            } else {
                Err::<u8, CocoError>(CocoError::InvalidArgument)
            },
            final(self)@ == old(self)@.after_pop(),
    {
        let ghost pre = self@;
        if self.current.is_none() {
            return Err(CocoError::InvalidArgument);
        }
        let popped: Option<u8> = self.stack.pop();
        proof {
            pre.lemma_with_stack_inv(self@.stack);
        }
        match popped {
            Some(b) => Ok(b),
            None => Err(CocoError::InvalidArgument),
        }
    }

    /// The running task writes `b` to the byte `offset` bytes above the
    /// stack pointer.
    ///
    /// Fails with `InvalidArgument`, and changes nothing, exactly when no
    /// task is running or that byte is not in use.
    pub fn stack_write(&mut self, offset: usize, b: u8) -> (r: Result<(), CocoError>)
        requires
            old(self).wf(),
        ensures
            final(self).wf(),
            r == if old(self)@.can_reach(offset as int) {
                Ok::<(), CocoError>(())
            } else {
                Err::<(), CocoError>(CocoError::InvalidArgument)
            },
            final(self)@ == old(self)@.after_write(offset as int, b),
    {
        let ghost pre = self@;
        if self.current.is_none() {
            return Err(CocoError::InvalidArgument);
        }
        let ok: bool = self.stack.write(offset, b);
        proof {
            pre.lemma_with_stack_inv(self@.stack);
        }
        if ok {
            Ok(())
        } else {
            Err(CocoError::InvalidArgument)
        }
    }
}

} // verus!
