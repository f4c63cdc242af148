use vstd::prelude::*;

verus! {

/// A counting limiter that caps how many probes may have an outstanding
/// connection attempt at once.
///
/// The limiter only does the bookkeeping: a slot is taken with [`acquire`]
/// when a probe starts its connection attempt and returned with [`release`]
/// the moment that attempt resolves. Each scan owns an independent instance,
/// so overlapping scans never share slot state.
///
/// [`acquire`]: Limiter::acquire
/// [`release`]: Limiter::release
pub struct Limiter {
    capacity: usize,
    in_flight: usize,
}

impl Limiter {
    /// The fixed number of slots the limiter was created with.
    pub closed spec fn spec_capacity(self) -> int {
        self.capacity as int
    }

    /// How many slots are currently taken.
    pub closed spec fn spec_in_flight(self) -> int {
        self.in_flight as int
    }

    /// Well-formedness: at least one slot exists and the count of taken
    /// slots never exceeds the capacity.
    pub open spec fn wf(self) -> bool {
        &&& 1 <= self.spec_capacity()
        &&& 0 <= self.spec_in_flight() <= self.spec_capacity()
    }

    /// Creates a limiter with `capacity` free slots.
    pub fn new(capacity: usize) -> (r: Limiter)
        requires
            capacity >= 1,
        ensures
            r.wf(),
            r.spec_capacity() == capacity,
            r.spec_in_flight() == 0,
    {
        Limiter { capacity, in_flight: 0 }
    }

    /// The fixed number of slots the limiter was created with.
    pub fn capacity(&self) -> (r: usize)
        ensures
            r as int == self.spec_capacity(),
    {
        self.capacity
    }

    /// Whether a free slot is available right now.
    pub fn available(&self) -> (r: bool)
        ensures
            r == (self.spec_in_flight() < self.spec_capacity()),
    {
        self.in_flight < self.capacity
    }

    /// Whether every slot is free.
    pub fn idle(&self) -> (r: bool)
        ensures
            r == (self.spec_in_flight() == 0),
    {
        self.in_flight == 0
    }

    /// Takes one slot. The caller must have checked that one is available;
    /// a caller without a free slot waits for a [`release`] instead.
    ///
    /// [`release`]: Limiter::release
    pub fn acquire(&mut self)
        requires
            old(self).wf(),
            old(self).spec_in_flight() < old(self).spec_capacity(),
        ensures
            final(self).wf(),
            final(self).spec_capacity() == old(self).spec_capacity(),
            final(self).spec_in_flight() == old(self).spec_in_flight() + 1,
    {
        self.in_flight = self.in_flight + 1;
    }

    /// Returns one slot.
    pub fn release(&mut self)
        requires
            old(self).wf(),
            old(self).spec_in_flight() >= 1,
        ensures
            final(self).wf(),
            final(self).spec_capacity() == old(self).spec_capacity(),
            final(self).spec_in_flight() == old(self).spec_in_flight() - 1,
    {
        self.in_flight = self.in_flight - 1;
    }
}

} // verus!
