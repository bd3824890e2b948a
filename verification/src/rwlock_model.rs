//! Model of the asynchronous reader-writer mutex that guards the disk state
//! and the cross-worker shared state.
//!
//! The rest of this crate carries exclusivity through `&mut`, which is what
//! the locks achieve at run time; this module states the discipline itself:
//! any number of readers or one writer, never both, and never two writers.

use vstd::prelude::*;

verus! {

/// The occupancy of one reader-writer mutex: how many shared holders and
/// how many exclusive holders it has granted.
pub struct AsyncMutex {
    readers: usize,
    writers: usize,
}

impl AsyncMutex {
    /// At most one exclusive holder, and no shared holder beside it.
    pub closed spec fn inv(self) -> bool {
        self.writers <= 1 && (self.writers == 1 ==> self.readers == 0)
    }

    /// How many shared locks are held.
    pub closed spec fn shared_holders(self) -> int {
        self.readers as int
    }

    /// How many exclusive locks are held.
    pub closed spec fn exclusive_holders(self) -> int {
        self.writers as int
    }

    /// An unheld mutex.
    pub fn new() -> (m: AsyncMutex)
        ensures
            m.inv(),
            m.shared_holders() == 0,
            m.exclusive_holders() == 0,
    {
        AsyncMutex { readers: 0, writers: 0 }
    }

    /// Tries to take a shared lock: granted unless an exclusive lock is
    /// held (the asynchronous lock suspends the caller instead of failing).
    /// While an exclusive lock is held no reader is admitted, so none can
    /// observe partially updated state.
    pub fn try_read_lock(&mut self) -> (granted: bool)
        requires
            old(self).inv(),
        ensures
            final(self).inv(),
            granted == (old(self).exclusive_holders() == 0 && old(self).shared_holders()
                < usize::MAX),
            granted ==> final(self).shared_holders() == old(self).shared_holders() + 1,
            !granted ==> *final(self) == *old(self),
            final(self).exclusive_holders() == old(self).exclusive_holders(),
    {
        if self.writers == 0 && self.readers < usize::MAX {
            self.readers = self.readers + 1;
            true
        } else {
            false
        }
    }

    /// Releases one shared lock.
    pub fn read_unlock(&mut self)
        requires
            old(self).inv(),
            old(self).shared_holders() > 0,
        ensures
            final(self).inv(),
            final(self).shared_holders() == old(self).shared_holders() - 1,
            final(self).exclusive_holders() == old(self).exclusive_holders(),
    {
        self.readers = self.readers - 1;
    }

    /// Tries to take the exclusive lock: granted only when nobody holds the
    /// mutex at all.  In particular a second exclusive lock is never
    /// granted while one is held.
    pub fn try_lock(&mut self) -> (granted: bool)
        requires
            old(self).inv(),
        ensures
            final(self).inv(),
            granted == (old(self).exclusive_holders() == 0 && old(self).shared_holders() == 0),
            granted ==> final(self).exclusive_holders() == 1,
            !granted ==> *final(self) == *old(self),
            old(self).exclusive_holders() == 1 ==> !granted,
    {
        if self.writers == 0 && self.readers == 0 {
            self.writers = 1;
            true
        } else {
            false
        }
    }

    /// Releases the exclusive lock.
    pub fn unlock(&mut self)
        requires
            old(self).inv(),
            old(self).exclusive_holders() == 1,
        ensures
            final(self).inv(),
            final(self).exclusive_holders() == 0,
            final(self).shared_holders() == old(self).shared_holders(),
    {
        self.writers = 0;
    }
}

/// No two exclusive locks are ever held simultaneously: every reachable
/// state of the mutex has at most one exclusive holder, and while it is
/// held, no shared holder either.
pub proof fn lemma_exclusive_is_unique(m: AsyncMutex)
    requires
        m.inv(),
    ensures
        m.exclusive_holders() <= 1,
        m.exclusive_holders() == 1 ==> m.shared_holders() == 0,
{
}

} // verus!
