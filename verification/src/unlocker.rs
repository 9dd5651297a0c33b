use vstd::prelude::*;

use crate::isolate::Isolate;
use crate::locker::Locker;
use crate::locker::spec_is_locked;

verus! {

broadcast use crate::isolate::lemma_lock_depth_in_range;

/// A guard that temporarily gives up a held lock so other threads may enter
/// the isolate, and restores it on release.
///
/// An `Unlocker` is constructed only from a live [`Locker`] — the calling
/// thread must hold the lock, and the unlock window is thereby strictly
/// nested inside the locked region it suspends. Construction gives the lock
/// up entirely, whatever the nesting depth; [`Unlocker::relock`] closes the
/// window, re-acquiring the lock at exactly the depth held before, and hands
/// the enclosing guard back.
///
/// The guard deliberately exposes no access to the isolate: during the
/// window the calling thread no longer holds the lock, so it must not touch
/// the isolate. Ownership makes any such access impossible.
#[derive(Debug)]
pub struct Unlocker {
    parked: Isolate,
    saved: u64,
}

impl View for Unlocker {
    type V = Isolate;

    /// The isolate as it stands during the unlock window: the lock given up,
    /// the rest of its state untouched.
    closed spec fn view(&self) -> Isolate {
        self.parked
    }
}

impl Unlocker {
    /// While the window is open the lock is not held at all: the parked
    /// isolate always stands at depth zero, so closing the window may
    /// restore the saved depth in one step.
    #[verifier::type_invariant]
    spec fn window_open(self) -> bool {
        self.parked.lock_depth() == 0
    }

    /// The hold depth the calling thread had when the window was opened,
    /// restored in full when the window closes.
    pub closed spec fn saved_depth(self) -> int {
        self.saved as int
    }

    /// Opens an unlock window inside the locked region that `locker` guards:
    /// the lock is released entirely, so other threads may acquire it while
    /// the window is open. The depth `locker` held is remembered so that
    /// [`Unlocker::relock`] can restore it.
    pub fn new(locker: Locker) -> (r: Unlocker)
        requires
            spec_is_locked(locker@.lock_depth()),
        ensures
            r.saved_depth() == locker@.lock_depth(),
            r@.lock_depth() == 0,
            r@.data() == locker@.data(),
    {
        let mut parked = locker.into_guarded();
        let saved = parked.release_all_raw();
        Unlocker { parked, saved }
    }

    /// Closes the window: re-acquires the lock — blocking, in the running
    /// system, while another thread holds what it grabbed during the window —
    /// and restores the hold depth saved at construction, handing back the
    /// guard of the enclosing locked region.
    pub fn relock(self) -> (r: Locker)
        ensures
            r@.lock_depth() == self.saved_depth(),
            r@.data() == self@.data(),
    {
        proof {
            use_type_invariant(&self);
        }
        let Unlocker { mut parked, saved } = self;
        parked.restore_raw(saved);
        Locker::from_guarded(parked)
    }
}

/// Round trip: opening an unlock window inside a held lock and then closing
/// it returns the thread to exactly the hold depth and isolate state it had
/// before the window — `held` is the isolate a guard was holding, `window`
/// the unlocker opened on that guard, `resumed` the isolate guarded after
/// relock, each related to the next by the contracts of [`Unlocker::new`]
/// and [`Unlocker::relock`].
pub proof fn lemma_unlock_window_round_trip(held: Isolate, window: Unlocker, resumed: Isolate)
    requires
        spec_is_locked(held.lock_depth()),
        window.saved_depth() == held.lock_depth(),
        window@.data() == held.data(),
        resumed.lock_depth() == window.saved_depth(),
        resumed.data() == window@.data(),
    ensures
        resumed.lock_depth() == held.lock_depth(),
        resumed.data() == held.data(),
        spec_is_locked(resumed.lock_depth()),
{
}

} // verus!
