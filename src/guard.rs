use vstd::prelude::*;

use crate::error::LedgerError;

verus! {

/// A one-bit lock that a guarded operation holds for its duration, so that a
/// nested entry into the same operation is rejected.
pub struct ReentrancyGuard {
    is_locked: bool,
}

impl View for ReentrancyGuard {
    /// Whether the guard is currently held.
    type V = bool;

    closed spec fn view(&self) -> bool {
        self.is_locked
    }
}

impl ReentrancyGuard {
    /// Creates an unlocked guard.
    pub fn new() -> (r: Self)
        ensures
            !r@,
    {
        ReentrancyGuard { is_locked: false }
    }

    /// Takes the guard; fails, changing nothing, when it is already held.
    pub fn enter(&mut self) -> (r: Result<(), LedgerError>)
        ensures
            old(self)@ ==> r == Err::<(), LedgerError>(LedgerError::ReentrancyError)
                && final(self)@ == old(self)@,
            !old(self)@ ==> r == Ok::<(), LedgerError>(()) && final(self)@,
    {
        if self.is_locked {
            return Err(LedgerError::ReentrancyError);
        }
        self.is_locked = true;
        Ok(())
    }

    /// Releases the guard, whether or not it was held.
    pub fn exit(&mut self)
        ensures
            !final(self)@,
    {
        self.is_locked = false;
    }
}

} // verus!
