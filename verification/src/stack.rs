//! The one stack that all tasks share.
//!
//! The stack is a region of bytes that grows downwards from its base, the
//! end of the region. The stack pointer is the index of the lowest byte in
//! use, so the live bytes are those from the stack pointer up to the base.

use vstd::prelude::*;

verus! {

/// The mathematical model of a [`SharedStack`].
pub struct StackView {
    /// Every byte of the region, in use or not.
    pub bytes: Seq<u8>,
    /// The index of the lowest byte in use; the length of `bytes` when none is.
    pub sp: int,
}

impl StackView {
    /// The stack pointer lies within the region.
    pub open spec fn wf(self) -> bool {
        0 <= self.sp <= self.bytes.len()
    }

    /// The index just past the region, where an empty stack starts.
    pub open spec fn base(self) -> int {
        self.bytes.len() as int
    }

    /// How many bytes are in use.
    pub open spec fn depth(self) -> int {
        self.bytes.len() - self.sp
    }

    /// The bytes in use, lowest address first.
    pub open spec fn live(self) -> Seq<u8> {
        self.bytes.subrange(self.sp, self.bytes.len() as int)
    }

    /// The stack after `b` was pushed.
    pub open spec fn pushed(self, b: u8) -> StackView {
        StackView { bytes: self.bytes.update(self.sp - 1, b), sp: self.sp - 1 }
    }

    /// The stack after its lowest byte was popped.
    pub open spec fn popped(self) -> StackView {
        StackView { sp: self.sp + 1, ..self }
    }

    /// The stack with `b` written `offset` bytes above the stack pointer.
    pub open spec fn written(self, offset: int, b: u8) -> StackView {
        StackView { bytes: self.bytes.update(self.sp + offset, b), ..self }
    }

    /// The stack with nothing in use. The bytes stay as they are.
    pub open spec fn emptied(self) -> StackView {
        StackView { sp: self.bytes.len() as int, ..self }
    }

    /// The stack after `frame` was copied to the addresses from `start` on
    /// and the stack pointer was set to `start`.
    pub open spec fn restored(self, start: int, frame: Seq<u8>) -> StackView {
        StackView {
            bytes: Seq::new(
                self.bytes.len(),
                |i: int|
                    if start <= i < start + frame.len() {
                        frame[i - start]
                    } else {
                        self.bytes[i]
                    },
            ),
            sp: start,
        }
    }

    /// A frame that reaches up to the base is, once restored, the whole of
    /// the live stack, whatever the region held before.
    pub proof fn lemma_restored_live(self, start: int, frame: Seq<u8>)
        requires
            0 <= start,
            start + frame.len() == self.bytes.len(),
        ensures
            self.restored(start, frame).wf(),
            self.restored(start, frame).live() == frame,
            self.restored(start, frame).depth() == frame.len(),
    {
    }
}

/// The shared stack: a fixed region of bytes and a stack pointer.
pub struct SharedStack {
    bytes: Vec<u8>,
    sp: usize,
}

impl View for SharedStack {
    type V = StackView;

    closed spec fn view(&self) -> StackView {
        StackView { bytes: self.bytes@, sp: self.sp as int }
    }
}

impl SharedStack {
    /// The model of a stack of `size` bytes, all zero, with none in use.
    pub open spec fn spec_zeroed(size: int) -> StackView {
        StackView { bytes: Seq::new(size as nat, |i: int| 0u8), sp: size }
    }

    /// A stack of `size` bytes, all zero, with none in use.
    pub fn new(size: usize) -> (s: SharedStack)
        ensures
            s@.wf(),
            s@ == SharedStack::spec_zeroed(size as int),
    {
        let mut bytes: Vec<u8> = Vec::new();
        let mut i: usize = 0;
        while i < size
            invariant
                i <= size,
                bytes@ == Seq::new(i as nat, |j: int| 0u8),
            decreases size - i,
        {
            bytes.push(0u8);
            i = i + 1;
        }
        SharedStack { bytes, sp: size }
    }

    /// The size of the region.
    pub fn size(&self) -> (n: usize)
        ensures
            n == self@.bytes.len(),
    {
        self.bytes.len()
    }

    /// The stack pointer.
    pub fn sp(&self) -> (p: usize)
        ensures
            p == self@.sp,
    {
        self.sp
    }

    /// How many bytes are in use.
    pub fn depth(&self) -> (n: usize)
        requires
            self@.wf(),
        ensures
            n == self@.depth(),
    {
        self.bytes.len() - self.sp
    }

    /// Pushes `b`. Returns `false`, and changes nothing, when the region is
    /// full.
    pub fn push(&mut self, b: u8) -> (ok: bool)
        requires
            old(self)@.wf(),
        ensures
            final(self)@.wf(),
            ok == (old(self)@.sp > 0),
            ok ==> final(self)@ == old(self)@.pushed(b),
            !ok ==> final(self)@ == old(self)@,
    {
        if self.sp == 0 {
            return false;
        }
        self.sp = self.sp - 1;
        let at: usize = self.sp;
        self.bytes[at] = b;
        true
    }

    /// Pops the lowest byte in use. Returns `None`, and changes nothing, when
    /// no byte is in use.
    pub fn pop(&mut self) -> (r: Option<u8>)
        requires
            old(self)@.wf(),
        ensures
            final(self)@.wf(),
            old(self)@.depth() == 0 ==> r is None && final(self)@ == old(self)@,
            old(self)@.depth() > 0 ==> r == Some(old(self)@.bytes[old(self)@.sp]) && final(self)@
                == old(self)@.popped(),
    {
        if self.sp == self.bytes.len() {
            return None;
        }
        let b: u8 = self.bytes[self.sp];
        self.sp = self.sp + 1;
        Some(b)
    }

    /// The byte `offset` bytes above the stack pointer, if it is in use.
    pub fn read(&self, offset: usize) -> (r: Option<u8>)
        requires
            self@.wf(),
        ensures
            offset < self@.depth() ==> r == Some(self@.live()[offset as int]),
            offset >= self@.depth() ==> r is None,
    {
        if offset < self.bytes.len() - self.sp {
            Some(self.bytes[self.sp + offset])
        } else {
            None
        }
    }

    /// Writes `b` `offset` bytes above the stack pointer. Returns `false`, and
    /// changes nothing, when that byte is not in use.
    pub fn write(&mut self, offset: usize, b: u8) -> (ok: bool)
        requires
            old(self)@.wf(),
        ensures
            final(self)@.wf(),
            ok == (offset < old(self)@.depth()),
            ok ==> final(self)@ == old(self)@.written(offset as int, b),
            !ok ==> final(self)@ == old(self)@,
    {
        if offset < self.bytes.len() - self.sp {
            let at: usize = self.sp + offset;
            self.bytes[at] = b;
            true
        } else {
            false
        }
    }

    /// Takes every byte out of use. The bytes stay as they are.
    pub fn reset(&mut self)
        ensures
            final(self)@ == old(self)@.emptied(),
    {
        self.sp = self.bytes.len();
    }

    /// The live byte `offset` bytes above the stack pointer.
    pub(crate) fn live_at(&self, offset: usize) -> (b: u8)
        requires
            self@.wf(),
            offset < self@.depth(),
        ensures
            b == self@.live()[offset as int],
    {
        assert(self.sp + offset < self.bytes.len());
        self.bytes[self.sp + offset]
    }

    /// Copies the first `size` bytes of `frame` to the addresses from `start`
    /// on and sets the stack pointer to `start`.
    pub(crate) fn load(&mut self, start: usize, frame: &Vec<u8>, size: usize)
        requires
            size <= frame.len(),
            start + size <= old(self)@.bytes.len(),
        ensures
            final(self)@ == old(self)@.restored(start as int, frame@.take(size as int)),
    {
        let ghost before = self@;
        let mut i: usize = 0;
        while i < size
            invariant
                i <= size,
                size <= frame.len(),
                start + size <= before.bytes.len(),
                before.bytes.len() == self.bytes.len(),
                self.bytes@ == before.restored(start as int, frame@.take(i as int)).bytes,
            decreases size - i,
        {
            let b: u8 = frame[i];
            let at: usize = start + i;
            self.bytes[at] = b;
            i = i + 1;
            assert(self.bytes@ =~= before.restored(start as int, frame@.take(i as int)).bytes);
        }
        self.sp = start;
    }

    /// The byte at address `at` of the region, in use or not, if the region
    /// reaches that far.
    pub fn byte(&self, at: usize) -> (r: Option<u8>)
        ensures
            at < self@.bytes.len() ==> r == Some(self@.bytes[at as int]),
            at >= self@.bytes.len() ==> r is None,
    {
        if at < self.bytes.len() {
            Some(self.bytes[at])
        } else {
            None
        }
    }
}

} // verus!
