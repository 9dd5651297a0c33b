use vstd::prelude::*;

use crate::isolate::Isolate;

verus! {

broadcast use crate::isolate::lemma_lock_depth_in_range;

/// Whether a thread whose reentrant hold count stands at `depth` holds the
/// lock: it does exactly when at least one acquisition is outstanding.
pub open spec fn spec_is_locked(depth: int) -> bool {
    depth >= 1
}

/// The hold count after `n` further acquisitions starting from `start`:
/// each acquisition raises the count by one.
pub open spec fn depth_after_acquires(start: int, n: nat) -> int
    decreases n,
{
    if n == 0 {
        start
    } else {
        depth_after_acquires(start, (n - 1) as nat) + 1
    }
}

/// The hold count after `k` guard releases starting from `start`: each
/// release lowers the count by one.
pub open spec fn depth_after_releases(start: int, k: nat) -> int
    decreases k,
{
    if k == 0 {
        start
    } else {
        depth_after_releases(start, (k - 1) as nat) - 1
    }
}

/// A guard that holds the reentrant lock on an isolate.
///
/// Constructing a `Locker` acquires the lock; releasing it with
/// [`Locker::unlock`] gives one acquisition back. While the guard lives it
/// owns the isolate outright, so no other access path to the isolate can
/// exist on this thread: exclusivity is enforced by ownership. The lock is
/// reentrant, so a thread already holding it may nest a further guard with
/// [`Locker::nest`] without blocking; nested guards are released in strict
/// last-in-first-out order, each release handing the enclosing level back.
#[derive(Debug)]
pub struct Locker {
    guarded: Isolate,
}

impl View for Locker {
    type V = Isolate;

    /// The guarded isolate, with the acquisition this guard made already
    /// counted in its hold depth.
    closed spec fn view(&self) -> Isolate {
        self.guarded
    }
}

impl Locker {
    /// Acquires the lock on `isolate` and takes the isolate under guard.
    ///
    /// Acquisition is unconditional: in the running system the call blocks
    /// until the lock is obtained, immediately so when the calling thread
    /// already holds it. The guard comes back holding the lock one level
    /// deeper than before, with the isolate's state untouched.
    pub fn new(isolate: Isolate) -> (r: Locker)
        requires
            isolate.lock_depth() < u64::MAX,
        ensures
            r@.lock_depth() == isolate.lock_depth() + 1,
            r@.data() == isolate.data(),
            spec_is_locked(r@.lock_depth()),
    {
        let mut guarded = isolate;
        guarded.acquire_raw();
        Locker { guarded }
    }

    /// Reentrant acquisition: the thread already holding the lock through
    /// this guard acquires it once more, never blocking. The new guard
    /// stands one nesting level deeper; releasing it restores this one.
    pub fn nest(self) -> (r: Locker)
        requires
            self@.lock_depth() < u64::MAX,
        ensures
            r@.lock_depth() == self@.lock_depth() + 1,
            r@.data() == self@.data(),
            spec_is_locked(r@.lock_depth()),
    {
        let Locker { mut guarded } = self;
        guarded.acquire_raw();
        Locker { guarded }
    }

    /// Releases the innermost of at least two nested acquisitions, handing
    /// back the enclosing guard: the lock stays held, one level shallower.
    pub fn unnest(self) -> (r: Locker)
        requires
            self@.lock_depth() >= 2,
        ensures
            r@.lock_depth() == self@.lock_depth() - 1,
            r@.data() == self@.data(),
            spec_is_locked(r@.lock_depth()),
    {
        let Locker { mut guarded } = self;
        guarded.release_raw();
        Locker { guarded }
    }

    /// Returns a reference to the locked isolate.
    pub fn isolate(&self) -> (r: &Isolate)
        ensures
            *r == self@,
    {
        &self.guarded
    }

    /// Returns a mutable reference to the locked isolate. The isolate may be
    /// mutated freely through it: this guard holds the lock, so the calling
    /// thread has exclusive access.
    pub fn isolate_mut(&mut self) -> (r: &mut Isolate)
        ensures
            *r == old(self)@,
            final(self)@ == *final(r),
    {
        &mut self.guarded
    }

    /// Whether the calling thread currently holds the lock on `isolate`, at
    /// any nesting depth. Pure inspection: nothing is acquired or released.
    pub fn is_locked(isolate: &Isolate) -> (r: bool)
        ensures
            r == spec_is_locked(isolate.lock_depth()),
    {
        isolate.held_raw()
    }

    /// Resumes guarding an isolate whose lock the calling thread already
    /// holds: the inverse of [`Locker::into_guarded`], used by the unlock
    /// guard when its window closes and the enclosing locked region resumes.
    pub(crate) fn from_guarded(isolate: Isolate) -> (r: Locker)
        ensures
            r@ == isolate,
    {
        Locker { guarded: isolate }
    }

    /// Hands the guarded isolate over without releasing anything: the hold
    /// depth travels with it. Only the unlock guard uses this, to open its
    /// window on the isolate this guard was protecting.
    pub(crate) fn into_guarded(self) -> (r: Isolate)
        ensures
            r == self@,
    {
        self.guarded
    }

    /// Releases the acquisition this guard made and hands the isolate back,
    /// its hold depth one lower. When this was the outermost guard the lock
    /// becomes free for other threads; when it was nested the thread still
    /// holds the lock at the remaining depth.
    pub fn unlock(self) -> (r: Isolate)
        requires
            spec_is_locked(self@.lock_depth()),
        ensures
            r.lock_depth() == self@.lock_depth() - 1,
            r.data() == self@.data(),
    {
        let Locker { mut guarded } = self;
        guarded.release_raw();
        guarded
    }
}

/// Every acquisition leaves the lock held: a guard constructed over a thread
/// whose hold count stood at `depth` leaves the thread holding the lock.
pub proof fn lemma_acquired_is_locked(depth: int)
    requires
        depth >= 0,
    ensures
        spec_is_locked(depth + 1),
{
}

/// Acquisitions add up: `n` nested acquisitions raise the hold count by `n`.
pub proof fn lemma_acquires_accumulate(start: int, n: nat)
    ensures
        depth_after_acquires(start, n) == start + n,
    decreases n,
{
    if n > 0 {
        lemma_acquires_accumulate(start, (n - 1) as nat);
    }
}

/// Releases count down: `k` guard releases lower the hold count by `k`.
pub proof fn lemma_releases_count_down(start: int, k: nat)
    ensures
        depth_after_releases(start, k) == start - k,
    decreases k,
{
    if k > 0 {
        lemma_releases_count_down(start, (k - 1) as nat);
    }
}

/// Reentrant nesting: starting unlocked, `n` nested acquisitions by one
/// thread reach hold depth exactly `n`, and after `k` of the matching
/// releases the thread still holds the lock precisely when some acquisition
/// remains outstanding — the lock is given up only by the release of the
/// outermost guard.
pub proof fn lemma_nested_reentrancy(n: nat, k: nat)
    requires
        k <= n,
    ensures
        depth_after_acquires(0, n) == n,
        spec_is_locked(depth_after_releases(depth_after_acquires(0, n), k)) <==> k < n,
{
    lemma_acquires_accumulate(0, n);
    lemma_releases_count_down(n as int, k);
}

} // verus!
