//! The admission gate: a counting permit pool that bounds how many proof
//! computations may run at the same time.

use vstd::prelude::*;

verus! {

/// A counting permit pool. `held` permits are outstanding; at most
/// `max` may ever be outstanding at once, so the number of proof
/// computations admitted and not yet finished never exceeds `max`.
#[derive(Debug)]
pub struct AdmissionGate {
    pub max: usize,
    pub held: usize,
}

impl AdmissionGate {
    /// Permits out never outnumber `max`.
    pub open spec fn wf(&self) -> bool {
        self.held <= self.max
    }

    /// The configured maximum number of simultaneous permits.
    pub open spec fn spec_max(&self) -> nat {
        self.max as nat
    }

    /// The number of permits currently outstanding.
    pub open spec fn spec_held(&self) -> nat {
        self.held as nat
    }

    /// Create a gate that admits at most `max` concurrent computations.
    pub fn new(max: usize) -> (gate: AdmissionGate)
        ensures
            gate.wf(),
            gate.spec_max() == max,
            gate.spec_held() == 0,
    {
        AdmissionGate { max, held: 0 }
    }

    /// Try to take one permit. Succeeds exactly when a permit is free.
    pub fn try_acquire(&mut self) -> (admitted: bool)
        requires
            old(self).wf(),
        ensures
            final(self).wf(),
            final(self).spec_max() == old(self).spec_max(),
            admitted <==> old(self).spec_held() < old(self).spec_max(),
            admitted ==> final(self).spec_held() == old(self).spec_held() + 1,
            !admitted ==> final(self).spec_held() == old(self).spec_held(),
    {
        if self.held < self.max {
            self.held = self.held + 1;
            true
        } else {
            false
        }
    }

    /// Give one permit back.
    pub fn release(&mut self)
        requires
            old(self).wf(),
            old(self).spec_held() >= 1,
        ensures
            final(self).wf(),
            final(self).spec_max() == old(self).spec_max(),
            final(self).spec_held() == old(self).spec_held() - 1,
    {
        self.held = self.held - 1;
    }
}

/// No matter the call sequence, a gate that agrees with itself has at
/// most `max` permits out, so no more proof computations than `max` ever
/// run at once.
pub proof fn lemma_admission_bound(gate: AdmissionGate)
    requires
        gate.wf(),
    ensures
        gate.spec_held() <= gate.spec_max(),
{
}

} // verus!
