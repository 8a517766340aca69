//! The stack snapshot store: the buffer in which a suspended task keeps the
//! bytes of the shared stack that it was using.

use vstd::prelude::*;
use crate::error::CocoError;
use crate::stack::SharedStack;
use crate::stack::StackView;

verus! {

/// The mathematical model of a [`Snapshot`].
pub struct SnapshotView {
    /// The saved bytes, lowest address first.
    pub bytes: Seq<u8>,
    /// The address in the shared stack that the first saved byte came from.
    pub start: int,
    /// How many bytes the buffer can hold.
    pub capacity: int,
}

impl SnapshotView {
    /// The saved bytes fit in the buffer.
    pub open spec fn wf(self) -> bool {
        0 <= self.start && self.bytes.len() <= self.capacity
    }

    /// How many bytes are saved.
    pub open spec fn size(self) -> int {
        self.bytes.len() as int
    }

    /// The snapshot of an empty stack whose base is `base`.
    pub open spec fn fresh(capacity: int, base: int) -> SnapshotView {
        SnapshotView { bytes: Seq::empty(), start: base, capacity }
    }

    /// This buffer after the live bytes of `stack` were saved in it.
    pub open spec fn saved(self, stack: StackView) -> SnapshotView {
        SnapshotView { bytes: stack.live(), start: stack.sp, capacity: self.capacity }
    }

    /// Whether the saved bytes reach exactly up to the base of `stack`, so
    /// that they can go back to the addresses they came from.
    pub open spec fn fits(self, stack: StackView) -> bool {
        self.start + self.bytes.len() == stack.bytes.len()
    }
}

/// A fixed-capacity buffer with the bounds of the stack region saved in it.
pub struct Snapshot {
    buf: Vec<u8>,
    frame_start: usize,
    frame_size: usize,
}

impl View for Snapshot {
    type V = SnapshotView;

    closed spec fn view(&self) -> SnapshotView {
        SnapshotView {
            bytes: self.buf@.take(self.frame_size as int),
            start: self.frame_start as int,
            capacity: self.buf.len() as int,
        }
    }
}

impl Snapshot {
    /// The frame size never exceeds the capacity of the buffer.
    pub closed spec fn wf(&self) -> bool {
        self.frame_size <= self.buf.len()
    }

    /// A buffer of `capacity` bytes that holds the empty frame of a stack
    /// whose base is `base`.
    pub fn new(capacity: usize, base: usize) -> (s: Snapshot)
        ensures
            s.wf(),
            s@ == SnapshotView::fresh(capacity as int, base as int),
    {
        let mut buf: Vec<u8> = Vec::new();
        let mut i: usize = 0;
        while i < capacity
            invariant
                i <= capacity,
                buf.len() == i,
            decreases capacity - i,
        {
            buf.push(0u8);
            i = i + 1;
        }
        let s = Snapshot { buf, frame_start: base, frame_size: 0 };
        assert(s@.bytes =~= Seq::<u8>::empty());
        s
    }

    /// How many bytes the buffer can hold.
    pub fn capacity(&self) -> (n: usize)
        ensures
            n == self@.capacity,
    {
        self.buf.len()
    }

    /// The address that the first saved byte came from.
    pub fn frame_start(&self) -> (n: usize)
        ensures
            n == self@.start,
    {
        self.frame_start
    }

    /// How many bytes are saved.
    pub fn frame_size(&self) -> (n: usize)
        requires
            self.wf(),
        ensures
            n == self@.size(),
    {
        self.frame_size
    }

    /// The saved byte at index `i`, if there is one.
    pub fn byte(&self, i: usize) -> (r: Option<u8>)
        requires
            self.wf(),
        ensures
            i < self@.size() ==> r == Some(self@.bytes[i as int]),
            i >= self@.size() ==> r is None,
    {
        if i < self.frame_size {
            Some(self.buf[i])
        } else {
            None
        }
    }

    /// Saves the live bytes of `stack`, with the address they start at.
    ///
    /// Fails with `StackSnapshotOverflow`, and keeps what was saved before,
    /// exactly when the live bytes are more than the buffer can hold: a
    /// frame is never saved in part.
    pub fn save(&mut self, stack: &SharedStack) -> (r: Result<(), CocoError>)
        requires
            old(self).wf(),
            stack@.wf(),
        ensures
            final(self).wf(),
            stack@.depth() <= old(self)@.capacity ==> r is Ok && final(self)@ == old(self)@.saved(
                stack@,
            ),
            stack@.depth() > old(self)@.capacity ==> r == Err::<(), CocoError>(
                CocoError::StackSnapshotOverflow,
            ) && final(self)@ == old(self)@,
    {
        let depth: usize = stack.depth();
        if depth > self.buf.len() {
            return Err(CocoError::StackSnapshotOverflow);
        }
        let sp: usize = stack.sp();
        let mut i: usize = 0;
        while i < depth
            invariant
                i <= depth,
                depth <= self.buf.len(),
                self.buf.len() == old(self).buf.len(),
                stack@.wf(),
                sp == stack@.sp,
                depth == stack@.depth(),
                self.buf@.take(i as int) == stack@.live().take(i as int),
            decreases depth - i,
        {
            let b: u8 = stack.live_at(i);
            self.buf[i] = b;
            i = i + 1;
        }
        self.frame_start = sp;
        self.frame_size = depth;
        assert(self@.bytes =~= stack@.live());
        Ok(())
    }

    /// Copies the saved bytes back to the addresses they came from and sets
    /// the stack pointer to the first of them.
    ///
    /// Fails with `InvalidArgument`, and leaves `stack` as it is, exactly
    /// when the saved bytes do not reach up to the base of `stack`.
    pub fn restore(&self, stack: &mut SharedStack) -> (r: Result<(), CocoError>)
        requires
            self.wf(),
        ensures
            self@.fits(old(stack)@) ==> r is Ok && final(stack)@ == old(stack)@.restored(
                self@.start,
                self@.bytes,
            ),
            !self@.fits(old(stack)@) ==> r == Err::<(), CocoError>(CocoError::InvalidArgument)
                && final(stack)@ == old(stack)@,
    {
        let size: usize = stack.size();
        if self.frame_size > size || size - self.frame_size != self.frame_start {
            return Err(CocoError::InvalidArgument);
        }
        stack.load(self.frame_start, &self.buf, self.frame_size);
        Ok(())
    }
}

/// What is saved from a stack and restored to a stack of the same size is,
/// whatever that stack held in between, the live stack that was saved.
pub proof fn lemma_save_restore(snap: SnapshotView, saved_from: StackView, restored_to: StackView)
    requires
        saved_from.wf(),
        restored_to.bytes.len() == saved_from.bytes.len(),
    ensures
        snap.saved(saved_from).fits(restored_to),
        restored_to.restored(snap.saved(saved_from).start, snap.saved(saved_from).bytes).live()
            == saved_from.live(),
        restored_to.restored(snap.saved(saved_from).start, snap.saved(saved_from).bytes).sp
            == saved_from.sp,
{
    let s = snap.saved(saved_from);
    restored_to.lemma_restored_live(s.start, s.bytes);
}

} // verus!
