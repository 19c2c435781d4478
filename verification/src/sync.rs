//! Mutual-exclusion primitive used to keep diagnostic output from different
//! cores from interleaving mid-line.
//!
//! On the hardware the lock word is a single atomic flag that cores race on
//! with compare-and-exchange; here the flag is modelled as owned state, so
//! `lock` is specified for the caller that would win the race: acquiring a
//! free lock succeeds, and acquiring a held one is ruled out by the
//! precondition (on hardware that caller would spin until the holder
//! releases).

use vstd::prelude::*;

verus! {

/// A test-and-set mutual-exclusion lock.
pub struct SpinLock {
    locked: bool,
}

impl SpinLock {
    /// True when the lock is currently held.
    pub closed spec fn is_locked(self) -> bool {
        self.locked
    }

    /// A fresh lock is free.
    pub fn new() -> (r: SpinLock)
        ensures
            !r.is_locked(),
    {
        SpinLock { locked: false }
    }

    /// Acquire the lock.  The caller must not already be racing a holder:
    /// on hardware this call spins until the flag is clear, so it returns
    /// only in the state this model starts from.
    pub fn lock(&mut self)
        requires
            !old(self).is_locked(),
        ensures
            final(self).is_locked(),
    {
        self.locked = true;
    }

    /// Release the lock unconditionally, as a store of `false` does.
    pub fn unlock(&mut self)
        ensures
            !final(self).is_locked(),
    {
        self.locked = false;
    }

    /// Try to acquire the lock without spinning: succeeds exactly when the
    /// lock was free, and in either case the lock is held afterwards by
    /// somebody (the caller on success, the previous holder otherwise).
    pub fn try_lock(&mut self) -> (acquired: bool)
        ensures
            acquired == !old(self).is_locked(),
            final(self).is_locked(),
    {
        if self.locked {
            false
        } else {
            self.locked = true;
            true
        }
    }
}

} // verus!
