//! The concurrency limiter: a counting limiter that bounds how many
//! probes may be in flight at once.
//!
//! The safety property of the limiter is its invariant: in every state that
//! the operations can reach, the number of admitted probes is at most the
//! fixed capacity. Admission never blocks here; a caller that is refused
//! retries once a slot frees.

use vstd::prelude::*;

verus! {

/// A counting admission counter with a fixed capacity of at least one.
#[derive(Debug, Clone, Copy, PartialEq, Eq, Structural)]
pub struct Limiter {
    /// The fixed bound on simultaneously admitted probes.
    pub capacity: usize,
    /// How many probes are admitted right now.
    pub in_flight: usize,
}

impl Limiter {
    /// The limiter's invariant: the capacity is positive and is never
    /// exceeded. Every operation requires and preserves it.
    pub open spec fn inv(&self) -> bool {
        1 <= self.capacity && self.in_flight <= self.capacity
    }

    /// A fresh limiter with the given capacity and nothing in flight.
    pub fn new(capacity: usize) -> (r: Self)
        requires
            capacity >= 1,
        ensures
            r.inv(),
            r.capacity == capacity,
            r.in_flight == 0,
    {
        Limiter { capacity, in_flight: 0 }
    }

    /// Admits one probe when a slot is free; refuses it otherwise.
    pub fn try_acquire(&mut self) -> (r: bool)
        requires
            old(self).inv(),
        ensures
            final(self).inv(),
            final(self).capacity == old(self).capacity,
            r == (old(self).in_flight < old(self).capacity),
            r ==> final(self).in_flight == old(self).in_flight + 1,
            !r ==> final(self).in_flight == old(self).in_flight,
    {
        if self.in_flight < self.capacity {
            self.in_flight = self.in_flight + 1;
            true
        } else {
            false
        }
    }

    /// Returns one admitted probe's slot. A slot is released on every exit
    /// path of a probe, success and failure alike.
    pub fn release(&mut self)
        requires
            old(self).inv(),
            old(self).in_flight >= 1,
        ensures
            final(self).inv(),
            final(self).capacity == old(self).capacity,
            final(self).in_flight == old(self).in_flight - 1,
    {
        self.in_flight = self.in_flight - 1;
    }
}

/// Law: in any state the limiter's operations can produce, no more than
/// `capacity` probes are in flight at one instant.
pub proof fn lemma_limiter_bounded(l: Limiter)
    requires
        l.inv(),
    ensures
        l.in_flight <= l.capacity,
{
}

} // verus!
