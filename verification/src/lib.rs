//! Reentrant mutual-exclusion guards over a shared execution context.
//!
//! An [`isolate::Isolate`] is a heavyweight execution environment that must
//! never be used by two threads at once, yet is commonly entered recursively
//! by the thread that owns it. This crate provides the guard pair that keeps
//! that discipline:
//!
//! - [`locker::Locker`] acquires the isolate's reentrant lock and grants
//!   exclusive access to the isolate for as long as it lives;
//! - [`unlocker::Unlocker`] opens a bounded window inside a held lock during
//!   which the lock is given up so other threads can make progress, and
//!   guarantees that closing the window restores exactly the hold depth that
//!   was held before.
//!
//! Guards nest in strict last-in-first-out order, enforced here by ownership:
//! each guard consumes what it protects and hands it back when released.

pub mod isolate;
pub mod locker;
pub mod unlocker;
