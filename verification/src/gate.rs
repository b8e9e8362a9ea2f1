use vstd::prelude::*;

verus! {

/// Permit accounting for the bound on simultaneous render sessions.
///
/// It counts the slots in use; waiting for a free slot is the
/// caller's business.
pub struct ConcurrencyGate {
    capacity: usize,
    active: usize,
}

/// A pool as a pair of numbers.
pub struct GateView {
    pub capacity: nat,
    pub active: nat,
}

impl View for ConcurrencyGate {
    type V = GateView;

    closed spec fn view(&self) -> GateView {
        GateView { capacity: self.capacity as nat, active: self.active as nat }
    }
}

/// What `try_acquire` does to a gate: one more slot in use, if one is free.
pub open spec fn spec_acquire(g: GateView) -> (GateView, bool) {
    if g.active < g.capacity {
        (GateView { capacity: g.capacity, active: g.active + 1 }, true)
    } else {
        (g, false)
    }
}

/// What `release` does to a gate with a slot in use.
pub open spec fn spec_release(g: GateView) -> GateView {
    GateView { capacity: g.capacity, active: (g.active - 1) as nat }
}

/// A pool after `n` acquisitions in a row with no release between them.
pub open spec fn spec_acquire_times(g: GateView, n: nat) -> GateView
    decreases n,
{
    if n == 0 {
        g
    } else {
        spec_acquire(spec_acquire_times(g, (n - 1) as nat)).0
    }
}

impl ConcurrencyGate {
    /// The number of slots a gate has when none is asked for.
    pub const DEFAULT_CAPACITY: usize = 4;

    /// Never more slots in use than there are.
    pub open spec fn wf(&self) -> bool {
        self@.active <= self@.capacity
    }

    /// A gate with `capacity` slots, all free.
    pub fn new(capacity: usize) -> (g: ConcurrencyGate)
        ensures
            g.wf(),
            g@ == (GateView { capacity: capacity as nat, active: 0 }),
    {
        ConcurrencyGate { capacity, active: 0 }
    }

    /// A gate with the default number of slots.
    pub fn with_default_capacity() -> (g: ConcurrencyGate)
        ensures
            g.wf(),
            g@ == (GateView { capacity: 4, active: 0 }),
    {
        ConcurrencyGate { capacity: 4, active: 0 }
    }

    pub fn capacity(&self) -> (r: usize)
        ensures
            r == self@.capacity,
    {
        self.capacity
    }

    /// The number of slots in use.
    pub fn active(&self) -> (r: usize)
        ensures
            r == self@.active,
    {
        self.active
    }

    /// The number of free slots.
    pub fn available(&self) -> (r: usize)
        requires
            self.wf(),
        ensures
            r == self@.capacity - self@.active,
    {
        self.capacity - self.active
    }

    /// Takes a slot if one is free, and says whether it did.
    pub fn try_acquire(&mut self) -> (granted: bool)
        requires
            old(self).wf(),
        ensures
            final(self).wf(),
            final(self)@ == spec_acquire(old(self)@).0,
            granted == spec_acquire(old(self)@).1,
    {
        if self.active < self.capacity {
            self.active = self.active + 1;
            true
        } else {
            false
        }
    }

    /// Gives a slot back. Returns `false`, and changes nothing, where no slot
    /// is in use.
    pub fn release(&mut self) -> (released: bool)
        requires
            old(self).wf(),
        ensures
            final(self).wf(),
            released == (old(self)@.active > 0),
            released ==> final(self)@ == spec_release(old(self)@),
            !released ==> final(self)@ == old(self)@,
    {
        if self.active > 0 {
            self.active = self.active - 1;
            true
        } else {
            false
        }
    }
}

/// From an idle gate, the first `capacity` acquisitions in a row are granted
/// and fill it.
pub proof fn lemma_acquire_fills(capacity: nat, n: nat)
    requires
        n <= capacity,
    ensures
        spec_acquire_times(GateView { capacity, active: 0 }, n) == (GateView {
            capacity,
            active: n,
        }),
    decreases n,
{
    if n > 0 {
        lemma_acquire_fills(capacity, (n - 1) as nat);
    }
}

/// With every slot taken, one more acquisition is refused and leaves the pool
/// as it is; once one holder has released, it is granted.
pub proof fn lemma_next_waits_for_release(capacity: nat)
    requires
        capacity > 0,
    ensures
        ({
            let full = spec_acquire_times(GateView { capacity, active: 0 }, capacity);
            &&& !spec_acquire(full).1
            &&& spec_acquire(full).0 == full
            &&& spec_acquire(spec_release(full)).1
            &&& spec_acquire(spec_release(full)).0 == full
        }),
{
    lemma_acquire_fills(capacity, capacity);
}

} // verus!
