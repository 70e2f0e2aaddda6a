use vstd::prelude::*;

verus! {

/// The outcome of one attempt to take the lock: whether it was taken, and
/// whether the lock is held afterwards.
pub open spec fn acquire(held: bool) -> (bool, bool) {
    (!held, true)
}

/// A non-blocking single-flight lock: at most one sync runs at a time, and
/// a trigger that finds the lock held is dropped rather than queued.
pub struct SyncLock {
    held: bool,
}

impl SyncLock {
    pub closed spec fn is_held(&self) -> bool {
        self.held
    }

    pub fn new() -> (r: SyncLock)
        ensures
            !r.is_held(),
    {
        SyncLock { held: false }
    }

    /// Takes the lock if it is free; never waits.
    pub fn try_acquire(&mut self) -> (r: bool)
        ensures
            (r, final(self).is_held()) == acquire(old(self).is_held()),
    {
        if self.held {
            false
        } else {
            self.held = true;
            true
        }
    }

    pub fn release(&mut self)
        ensures
            !final(self).is_held(),
    {
        self.held = false;
    }
}

/// Of two attempts with no release between them, at most one takes the
/// lock; on a free lock exactly the first one does.
pub proof fn lemma_single_flight(held: bool)
    ensures
        !(acquire(held).0 && acquire(acquire(held).1).0),
        !held ==> acquire(held).0 && !acquire(acquire(held).1).0,
{
}

} // verus!
