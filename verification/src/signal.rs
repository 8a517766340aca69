//! Signal kinds, the set of pending signals of a task, and its handlers.

use vstd::prelude::*;
use crate::jump::Entry;

verus! {

/// The kinds of signal. There are three, ordered as written.
#[derive(Clone, Copy, Debug, PartialEq, Eq, Structural)]
pub enum Signal {
    Interrupt,
    Terminate,
    User,
}

impl Signal {
    /// The bit that stands for this kind in a pending-signal vector.
    pub open spec fn spec_mask(self) -> u8 {
        match self {
            Signal::Interrupt => 1u8,
            Signal::Terminate => 2u8,
            Signal::User => 4u8,
        }
    }

    /// The bit that stands for this kind in a pending-signal vector.
    #[verifier::when_used_as_spec(spec_mask)]
    pub fn mask(self) -> (m: u8)
        ensures
            m == self.spec_mask(),
    {
        match self {
            Signal::Interrupt => 1u8,
            Signal::Terminate => 2u8,
            Signal::User => 4u8,
        }
    }
}

proof fn lemma_mask_set(b: u8, m: u8, k: u8)
    by (bit_vector)
    requires
        m == 1 || m == 2 || m == 4,
        k == 1 || k == 2 || k == 4,
    ensures
        ((b | m) & k != 0) == (m == k || b & k != 0),
        b < 8 ==> (b | m) < 8,
{
}

/// The pending signals of a task: a bit vector with one bit per kind.
#[derive(Clone, Copy, Debug, PartialEq, Eq, Structural)]
pub struct SignalSet {
    bits: u8,
}

impl View for SignalSet {
    type V = Set<Signal>;

    closed spec fn view(&self) -> Set<Signal> {
        Set::new(|s: Signal| self.bits & s.spec_mask() != 0)
    }
}

impl SignalSet {
    /// Only the three bits that stand for a kind are ever set.
    pub closed spec fn wf(self) -> bool {
        self.bits < 8
    }

    /// The bit vector itself.
    pub closed spec fn spec_bits(self) -> u8 {
        self.bits
    }

    /// The set with no signal pending.
    pub fn empty() -> (s: SignalSet)
        ensures
            s.wf(),
            s@ == Set::<Signal>::empty(),
            s.spec_bits() == 0,
    {
        let s = SignalSet { bits: 0 };
        proof {
            assert forall|k: Signal| !s@.contains(k) by {
                assert(0u8 & k.spec_mask() == 0) by (bit_vector);
            }
        }
        s
    }

    /// The bit vector: bit 0 for the first kind, bit 1 for the second, bit 2
    /// for the third.
    #[verifier::when_used_as_spec(spec_bits)]
    pub fn bits(self) -> (b: u8)
        ensures
            b == self.spec_bits(),
            self.wf() ==> b < 8,
    {
        self.bits
    }

    /// Whether `sig` is pending.
    pub fn contains(self, sig: Signal) -> (b: bool)
        ensures
            b == self@.contains(sig),
    {
        self.bits & sig.mask() != 0
    }

    /// The set with `sig` pending as well.
    pub fn insert(self, sig: Signal) -> (s: SignalSet)
        ensures
            s@ == self@.insert(sig),
            self.wf() ==> s.wf(),
    {
        let s = SignalSet { bits: self.bits | sig.mask() };
        proof {
            lemma_mask_set(self.bits, sig.spec_mask(), 1);
            assert forall|k: Signal| s@.contains(k) == self@.insert(sig).contains(k) by {
                lemma_mask_set(self.bits, sig.spec_mask(), k.spec_mask());
            }
        }
        s
    }
}

/// The signal handlers of a task: for each kind, the entry registered for it,
/// if any.
#[derive(Clone, Copy, Debug, PartialEq, Eq, Structural)]
pub struct HandlerTable {
    pub interrupt: Option<Entry>,
    pub terminate: Option<Entry>,
    pub user: Option<Entry>,
}

impl HandlerTable {
    /// The handler registered for `sig`.
    pub open spec fn spec_get(self, sig: Signal) -> Option<Entry> {
        match sig {
            Signal::Interrupt => self.interrupt,
            Signal::Terminate => self.terminate,
            Signal::User => self.user,
        }
    }

    /// This table with `handler` in the place of `sig`.
    pub open spec fn spec_with(self, sig: Signal, handler: Option<Entry>) -> HandlerTable {
        match sig {
            Signal::Interrupt => HandlerTable { interrupt: handler, ..self },
            Signal::Terminate => HandlerTable { terminate: handler, ..self },
            Signal::User => HandlerTable { user: handler, ..self },
        }
    }

    /// The table with no handler.
    pub open spec fn spec_none() -> HandlerTable {
        HandlerTable { interrupt: None, terminate: None, user: None }
    }

    /// The table with no handler.
    #[verifier::when_used_as_spec(spec_none)]
    pub fn none() -> (t: HandlerTable)
        ensures
            t == HandlerTable::spec_none(),
    {
        HandlerTable { interrupt: None, terminate: None, user: None }
    }

    /// The handler registered for `sig`.
    #[verifier::when_used_as_spec(spec_get)]
    pub fn get(self, sig: Signal) -> (h: Option<Entry>)
        ensures
            h == self.spec_get(sig),
    {
        match sig {
            Signal::Interrupt => self.interrupt,
            Signal::Terminate => self.terminate,
            Signal::User => self.user,
        }
    }

    /// This table with `handler` in the place of `sig`.
    #[verifier::when_used_as_spec(spec_with)]
    pub fn with(self, sig: Signal, handler: Option<Entry>) -> (t: HandlerTable)
        ensures
            t == self.spec_with(sig, handler),
    {
        match sig {
            Signal::Interrupt => HandlerTable { interrupt: handler, ..self },
            Signal::Terminate => HandlerTable { terminate: handler, ..self },
            Signal::User => HandlerTable { user: handler, ..self },
        }
    }
}

} // verus!
