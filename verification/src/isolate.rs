use vstd::prelude::*;

verus! {

/// The shared execution context guarded by the reentrant lock.
///
/// An isolate is a heavyweight, single-threaded execution environment: at any
/// instant at most one thread may work inside it, yet the same thread may
/// enter it recursively. This type models the two facets of the isolate that
/// the guard layer reads and writes: the calling thread's reentrant hold
/// count on the isolate's lock, and a mutable data slot standing for the
/// isolate's user-visible state.
///
/// The hold count is never touched directly by callers; it moves only through
/// the lock primitives below, which the guard types in this crate drive in
/// strict last-in-first-out order.
#[derive(Debug)]
pub struct Isolate {
    depth: u64,
    slot: u64,
}

/// The hold count is carried in a machine word: it is never negative and
/// never exceeds the word's range.
pub broadcast proof fn lemma_lock_depth_in_range(i: Isolate)
    ensures
        0 <= #[trigger] i.lock_depth() <= u64::MAX,
{
}

impl Isolate {
    /// The calling thread's reentrant hold count on this isolate's lock:
    /// zero when the thread does not hold the lock, `n >= 1` when it holds
    /// the lock through `n` nested acquisitions.
    pub closed spec fn lock_depth(self) -> int {
        self.depth as int
    }

    /// The isolate's user-visible data slot.
    pub closed spec fn data(self) -> u64 {
        self.slot
    }

    /// A fresh isolate: the lock is not held and the data slot is zero.
    pub fn new() -> (r: Isolate)
        ensures
            r.lock_depth() == 0,
            r.data() == 0,
    {
        Isolate { depth: 0, slot: 0 }
    }

    /// Reads the data slot.
    pub fn get_data(&self) -> (r: u64)
        ensures
            r == self.data(),
    {
        self.slot
    }

    /// Writes the data slot. The lock state is untouched.
    pub fn set_data(&mut self, value: u64)
        ensures
            final(self).data() == value,
            final(self).lock_depth() == old(self).lock_depth(),
    {
        self.slot = value;
    }

    /// Lock-acquire primitive: one more reentrant acquisition by the calling
    /// thread. In the running system this is the point that blocks while
    /// another thread holds the lock; once it returns, the calling thread's
    /// hold count has grown by one and the isolate's state is untouched.
    pub(crate) fn acquire_raw(&mut self)
        requires
            old(self).lock_depth() < u64::MAX,
        ensures
            final(self).lock_depth() == old(self).lock_depth() + 1,
            final(self).data() == old(self).data(),
    {
        self.depth = self.depth + 1;
    }

    /// Lock-release primitive: drops one reentrant acquisition. Only the
    /// guard types call it, each exactly once, so acquisitions and releases
    /// stay matched.
    pub(crate) fn release_raw(&mut self)
        requires
            old(self).lock_depth() >= 1,
        ensures
            final(self).lock_depth() == old(self).lock_depth() - 1,
            final(self).data() == old(self).data(),
    {
        self.depth = self.depth - 1;
    }

    /// Lock-query primitive: whether the calling thread currently holds the
    /// lock at any depth.
    pub(crate) fn held_raw(&self) -> (r: bool)
        ensures
            r == (self.lock_depth() >= 1),
    {
        self.depth >= 1
    }

    /// Unlock-window primitive: gives the lock up entirely, whatever the
    /// current nesting depth, and reports the depth that was held so that it
    /// can be restored when the window closes.
    pub(crate) fn release_all_raw(&mut self) -> (saved: u64)
        requires
            old(self).lock_depth() >= 1,
        ensures
            saved == old(self).lock_depth(),
            final(self).lock_depth() == 0,
            final(self).data() == old(self).data(),
    {
        let saved = self.depth;
        self.depth = 0;
        saved
    }

    /// Closes an unlock window: re-acquires the lock and restores the hold
    /// count that `release_all_raw` reported. In the running system this is
    /// the second blocking point, waiting while another thread holds the
    /// lock it grabbed during the window.
    pub(crate) fn restore_raw(&mut self, saved: u64)
        requires
            old(self).lock_depth() == 0,
        ensures
            final(self).lock_depth() == saved as int,
            final(self).data() == old(self).data(),
    {
        self.depth = saved;
    }
}

} // verus!
