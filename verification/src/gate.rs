//! Bounded admission of concurrent probes: a counting gate that tracks how
//! many probes are in flight against a fixed ceiling. The resolver acquires
//! one slot per probe before submitting it and releases the slot exactly
//! once when the probe's outcome arrives, whatever the outcome was.

use vstd::prelude::*;

verus! {

/// A counting admission gate with a fixed ceiling.
pub struct Gate {
    pub in_flight: usize,
    pub ceiling: usize,
}

impl Gate {
    /// Holds when no more slots are held than the ceiling allows.
    pub open spec fn wf(self) -> bool {
        self.in_flight <= self.ceiling
    }

    pub open spec fn spec_in_flight(self) -> nat {
        self.in_flight as nat
    }

    pub open spec fn spec_ceiling(self) -> nat {
        self.ceiling as nat
    }

    pub fn new(ceiling: usize) -> (r: Gate)
        ensures
            r.wf(),
            r.spec_in_flight() == 0,
            r.spec_ceiling() == ceiling,
    {
        Gate { in_flight: 0, ceiling }
    }

    pub fn in_flight(&self) -> (r: usize)
        ensures
            r == self.spec_in_flight(),
    {
        self.in_flight
    }

    pub fn ceiling(&self) -> (r: usize)
        ensures
            r == self.spec_ceiling(),
    {
        self.ceiling
    }

    /// Takes one slot when room remains, and says so otherwise.
    pub fn try_acquire(&mut self) -> (r: bool)
        requires
            old(self).wf(),
        ensures
            final(self).wf(),
            final(self).spec_ceiling() == old(self).spec_ceiling(),
            r ==> old(self).spec_in_flight() < old(self).spec_ceiling()
                && final(self).spec_in_flight() == old(self).spec_in_flight() + 1,
            !r ==> old(self).spec_in_flight() == old(self).spec_ceiling()
                && final(self).spec_in_flight() == old(self).spec_in_flight(),
    {
        if self.in_flight < self.ceiling {
            self.in_flight = self.in_flight + 1;
            true
        } else {
            false
        }
    }

    /// Returns one probe slot; called exactly once per acquired slot, on
    /// success and failure paths alike.
    pub fn release(&mut self)
        requires
            old(self).wf(),
            old(self).spec_in_flight() > 0,
        ensures
            final(self).wf(),
            final(self).spec_ceiling() == old(self).spec_ceiling(),
            final(self).spec_in_flight() == old(self).spec_in_flight() - 1,
    {
        self.in_flight = self.in_flight - 1;
    }
}

/// The ceiling is respected: a well-formed gate never reports more probes
/// in flight than its ceiling, and every operation above returns a
/// well-formed gate.
pub proof fn lemma_ceiling_respected(g: Gate)
    requires
        g.wf(),
    ensures
        g.spec_in_flight() <= g.spec_ceiling(),
{
}

/// Relies on num_cpus::get: the number of logical CPUs available to this
/// process, documented to always be at least 1.
#[verifier::external_body]
fn cpu_count() -> (r: usize)
    ensures
        1 <= r,
{
    num_cpus::get()
}

/// The policy ceiling for a given hardware-parallelism hint: eight probes
/// per CPU, saturating at the machine limit.
pub fn ceiling_for(hint: usize) -> (r: usize)
    ensures
        8 * hint <= usize::MAX ==> r == 8 * hint,
        8 * hint > usize::MAX ==> r == usize::MAX,
        r >= hint,
{
    if hint <= usize::MAX / 8 {
        8 * hint
    } else {
        usize::MAX
    }
}

/// The default concurrency ceiling: eight probes per available CPU.
pub fn default_ceiling() -> (r: usize)
    ensures
        r >= 8,
{
    ceiling_for(cpu_count())
}

} // verus!
