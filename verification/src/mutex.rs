//! A simple mutual exclusion lock.
//!
//! The surrounding system is single-threaded by construction, so exclusive
//! access is already enforced by Rust ownership: every operation that
//! changes the lock takes `&mut self`. The lock nevertheless keeps explicit
//! held/free bookkeeping as a defensive discipline, so that the invariant
//! "the data is only touched while the lock is held" is stated and checked
//! rather than merely believed.

use vstd::prelude::*;

verus! {

/// A simple mutual exclusion lock around a value.
pub struct SimpleMutex<T> {
    locked: bool,
    data: T,
}

/// Witness that a [`SimpleMutex`] is held. Handed out by `lock` and
/// `try_lock`, taken back by `unlock`.
pub struct SimpleMutexGuard;

impl<T> SimpleMutex<T> {
    /// Whether the lock is currently held.
    pub closed spec fn is_locked(&self) -> bool {
        self.locked
    }

    /// The value the lock protects.
    pub closed spec fn value(&self) -> T {
        self.data
    }

    /// A new, free lock around `data`.
    pub fn new(data: T) -> (m: SimpleMutex<T>)
        ensures
            !m.is_locked(),
            m.value() == data,
    {
        SimpleMutex { locked: false, data }
    }

    /// Acquires the lock. A free lock is acquired immediately; taking a held
    /// lock again would never return in the single-owner setting, so it is
    /// ruled out up front.
    pub fn lock(&mut self) -> (guard: SimpleMutexGuard)
        requires
            !old(self).is_locked(),
        ensures
            final(self).is_locked(),
            final(self).value() == old(self).value(),
    {
        self.locked = true;
        SimpleMutexGuard
    }

    /// Acquires the lock if it is free, and reports failure otherwise.
    pub fn try_lock(&mut self) -> (guard: Option<SimpleMutexGuard>)
        ensures
            final(self).value() == old(self).value(),
            old(self).is_locked() ==> guard is None && final(self).is_locked(),
            !old(self).is_locked() ==> guard is Some && final(self).is_locked(),
    {
        if self.locked {
            None
        } else {
            self.locked = true;
            Some(SimpleMutexGuard)
        }
    }

    /// Releases the lock, taking the witness back.
    pub fn unlock(&mut self, guard: SimpleMutexGuard)
        requires
            old(self).is_locked(),
        ensures
            !final(self).is_locked(),
            final(self).value() == old(self).value(),
    {
        let _ = guard;
        self.locked = false;
    }

    /// Reads the protected value; only allowed while the lock is held.
    pub fn get(&self) -> (v: &T)
        requires
            self.is_locked(),
        ensures
            *v == self.value(),
    {
        &self.data
    }

    /// Replaces the protected value; only allowed while the lock is held.
    pub fn set(&mut self, guard: &SimpleMutexGuard, v: T)
        requires
            old(self).is_locked(),
        ensures
            final(self).is_locked(),
            final(self).value() == v,
    {
        let _ = guard;
        self.data = v;
    }
}

} // verus!
