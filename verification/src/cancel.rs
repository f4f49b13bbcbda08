//! The latch that records a user's interrupt.

use vstd::prelude::*;

verus! {

/// A one-shot latch. It starts clear, is set by the first `trigger` and
/// stays set: nothing clears it.
#[derive(Debug)]
pub struct CancellationSignal {
    triggered: bool,
}

impl CancellationSignal {
    /// The latch is set.
    pub closed spec fn is_triggered(&self) -> bool {
        self.triggered
    }

    /// A latch that is clear.
    pub fn new() -> (signal: CancellationSignal)
        ensures
            !signal.is_triggered(),
    {
        CancellationSignal { triggered: false }
    }

    /// Sets the latch. On a latch that is set already this changes nothing.
    pub fn trigger(&mut self)
        ensures
            final(self).is_triggered(),
            old(self).is_triggered() ==> *final(self) == *old(self),
    {
        self.triggered = true;
    }

    /// Tells whether the latch is set. Looking at it does not change it, so
    /// once it answers `true` it does so every time.
    pub fn observe(&self) -> (set: bool)
        ensures
            set == self.is_triggered(),
    {
        self.triggered
    }
}

} // verus!
