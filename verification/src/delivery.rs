//! Raising signals against tasks and registering handlers for them.
//!
//! A signal that is raised is only marked as pending. It is delivered when
//! the task is next switched in, at the top of its scheduling turn: the
//! handler registered for it is then invoked once; a task without a handler
//! for it is ended instead of being run.

use vstd::prelude::*;
use crate::context::ContextView;
use crate::error::CocoError;
use crate::jump::Entry;
use crate::scheduler::Scheduler;
use crate::signal::Signal;

verus! {

impl<A> Scheduler<A> {
    /// Raises `sig` against task `tid`: the signal is pending for it until
    /// the task is next switched in. Nothing else changes; in particular a
    /// task that sleeps or is blocked is not woken.
    ///
    /// Fails with `UnknownTask`, and changes nothing, exactly when the
    /// table has no task `tid`.
    pub fn raise(&mut self, tid: i32, sig: Signal) -> (r: Result<(), CocoError>)
        requires
            old(self).wf(),
        ensures
            final(self).wf(),
            r == if old(self)@.has(tid as int) {
                Ok::<(), CocoError>(())
            } else {
                Err::<(), CocoError>(CocoError::UnknownTask)
            },
            final(self)@ == old(self)@.after_raise(tid as int, sig),
    {
        let ghost pre = self@;
        if tid < 1 || tid as usize > self.slots.len() {
            return Err(CocoError::UnknownTask);
        }
        let at: usize = (tid - 1) as usize;
        if self.slots[at].is_none() {
            return Err(CocoError::UnknownTask);
        }
        match &mut self.slots[at] {
            Some(c) => {
                c.sig_bits = c.sig_bits.insert(sig);
            },
            None => {},
        }
        proof {
            let c = pre.task(tid as int)->0;
            let post = pre.raised(tid as int, sig);
            assert(self@.slots =~= post.slots);
            pre.lemma_with_data_inv(
                tid as int,
                ContextView { sig_bits: c.sig_bits.insert(sig), ..c },
            );
        }
        Ok(())
    }

    /// Registers `handler` as the handler of task `tid` for `sig`, or, where
    /// `handler` is `None`, takes the handler away. Returns the handler
    /// that was registered before.
    ///
    /// Fails with `UnknownTask`, and changes nothing, exactly when the
    /// table has no task `tid`.
    pub fn set_handler(&mut self, tid: i32, sig: Signal, handler: Option<Entry>) -> (r: Result<
        Option<Entry>,
        CocoError,
    >)
        requires
            old(self).wf(),
        ensures
            final(self).wf(),
            r == old(self)@.set_handler_result(tid as int, sig),
            final(self)@ == old(self)@.after_set_handler(tid as int, sig, handler),
    {
        let ghost pre = self@;
        if tid < 1 || tid as usize > self.slots.len() {
            return Err(CocoError::UnknownTask);
        }
        let at: usize = (tid - 1) as usize;
        if self.slots[at].is_none() {
            return Err(CocoError::UnknownTask);
        }
        let before: Option<Entry> = match &mut self.slots[at] {
            Some(c) => {
                let before: Option<Entry> = c.handlers.get(sig);
                c.handlers = c.handlers.with(sig, handler);
                before
            },
            None => None,
        };
        proof {
            let c = pre.task(tid as int)->0;
            let post = pre.handled(tid as int, sig, handler);
            assert(self@.slots =~= post.slots);
            pre.lemma_with_data_inv(
                tid as int,
                ContextView { handlers: c.handlers.spec_with(sig, handler), ..c },
            );
        }
        Ok(before)
    }
}

} // verus!
