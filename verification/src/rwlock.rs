//! A simple read-write lock. Allows either n readers or one writer.
//!
//! As with [`crate::mutex::SimpleMutex`], exclusive access is already
//! enforced by Rust ownership in this single-threaded setting; the lock
//! keeps explicit reader and writer counts as a defensive discipline, and
//! the contracts prove the exclusion invariant: there is never a writer
//! beside another writer or beside any reader.

use vstd::prelude::*;

verus! {

/// A simple read-write lock around a value. Allows either any number of
/// readers or exactly one writer.
pub struct SimpleRwLock<T> {
    data: T,
    read_count: u64,
    write_count: u64,
}

/// Witness of one acquired read lock; taken back by `unlock_read`.
pub struct SimpleRwLockReadGuard;

/// Witness of the acquired write lock; taken back by `unlock_write`.
pub struct SimpleRwLockWriteGuard;

impl<T> SimpleRwLock<T> {
    /// How many read locks are currently held.
    pub closed spec fn spec_read_count(&self) -> u64 {
        self.read_count
    }

    /// How many write locks are currently held.
    pub closed spec fn spec_write_count(&self) -> u64 {
        self.write_count
    }

    /// The value the lock protects.
    pub closed spec fn value(&self) -> T {
        self.data
    }

    /// The exclusion invariant: at most one writer, and never a writer
    /// beside a reader.
    pub open spec fn wf(&self) -> bool {
        self.spec_write_count() <= 1 && (self.spec_write_count() == 1
            ==> self.spec_read_count() == 0)
    }

    /// A read lock may be taken: no writer holds the lock.
    pub open spec fn spec_can_read(&self) -> bool {
        self.spec_write_count() == 0
    }

    /// The write lock may be taken: no reader and no writer holds the lock.
    pub open spec fn spec_can_write(&self) -> bool {
        self.spec_read_count() == 0 && self.spec_write_count() == 0
    }

    /// A new, free lock around `data`.
    pub fn new(data: T) -> (l: SimpleRwLock<T>)
        ensures
            l.wf(),
            l.spec_can_write(),
            l.value() == data,
    {
        SimpleRwLock { data, read_count: 0, write_count: 0 }
    }

    /// Takes a read lock if no writer holds the lock, and reports failure
    /// otherwise.
    pub fn try_lock_read(&mut self) -> (r: Result<SimpleRwLockReadGuard, ()>)
        requires
            old(self).wf(),
            old(self).spec_read_count() < u64::MAX,
        ensures
            final(self).wf(),
            final(self).value() == old(self).value(),
            final(self).spec_write_count() == old(self).spec_write_count(),
            old(self).spec_can_read() ==> r is Ok && final(self).spec_read_count() == old(
                self,
            ).spec_read_count() + 1,
            !old(self).spec_can_read() ==> r is Err && final(self).spec_read_count() == old(
                self,
            ).spec_read_count(),
    {
        if self.can_read() {
            self.read_count = self.read_count + 1;
            Ok(SimpleRwLockReadGuard)
        } else {
            Err(())
        }
    }

    /// Takes the write lock if no reader and no writer holds the lock, and
    /// reports failure otherwise.
    pub fn try_lock_write(&mut self) -> (r: Result<SimpleRwLockWriteGuard, ()>)
        requires
            old(self).wf(),
        ensures
            final(self).wf(),
            final(self).value() == old(self).value(),
            final(self).spec_read_count() == old(self).spec_read_count(),
            old(self).spec_can_write() ==> r is Ok && final(self).spec_write_count() == 1,
            !old(self).spec_can_write() ==> r is Err && final(self).spec_write_count() == old(
                self,
            ).spec_write_count(),
    {
        if self.can_write() {
            self.write_count = 1;
            Ok(SimpleRwLockWriteGuard)
        } else {
            Err(())
        }
    }

    /// Takes a read lock. Retrying until no writer holds the lock can never
    /// succeed in the single-owner setting, so a held write lock is ruled
    /// out up front and the lock is taken immediately.
    pub fn lock_read(&mut self) -> (guard: SimpleRwLockReadGuard)
        requires
            old(self).wf(),
            old(self).spec_can_read(),
            old(self).spec_read_count() < u64::MAX,
        ensures
            final(self).wf(),
            final(self).value() == old(self).value(),
            final(self).spec_write_count() == 0,
            final(self).spec_read_count() == old(self).spec_read_count() + 1,
    {
        let r = self.try_lock_read();
        match r {
            Ok(guard) => guard,
            Err(()) => SimpleRwLockReadGuard,
        }
    }

    /// Takes the write lock; a still-held read or write lock is ruled out
    /// up front, as for `lock_read`.
    pub fn lock_write(&mut self) -> (guard: SimpleRwLockWriteGuard)
        requires
            old(self).wf(),
            old(self).spec_can_write(),
        ensures
            final(self).wf(),
            final(self).value() == old(self).value(),
            final(self).spec_write_count() == 1,
            final(self).spec_read_count() == 0,
    {
        let r = self.try_lock_write();
        match r {
            Ok(guard) => guard,
            Err(()) => SimpleRwLockWriteGuard,
        }
    }

    /// Gives one read lock back.
    pub fn unlock_read(&mut self, guard: SimpleRwLockReadGuard)
        requires
            old(self).wf(),
            old(self).spec_read_count() > 0,
        ensures
            final(self).wf(),
            final(self).value() == old(self).value(),
            final(self).spec_read_count() == old(self).spec_read_count() - 1,
            final(self).spec_write_count() == old(self).spec_write_count(),
    {
        let _ = guard;
        self.read_count = self.read_count - 1;
    }

    /// Gives the write lock back.
    pub fn unlock_write(&mut self, guard: SimpleRwLockWriteGuard)
        requires
            old(self).wf(),
            old(self).spec_write_count() == 1,
        ensures
            final(self).wf(),
            final(self).value() == old(self).value(),
            final(self).spec_can_write(),
            final(self).spec_read_count() == old(self).spec_read_count(),
    {
        let _ = guard;
        self.write_count = 0;
    }

    /// Reads the protected value under a held read lock.
    pub fn read(&self, guard: &SimpleRwLockReadGuard) -> (v: &T)
        requires
            self.spec_read_count() > 0,
        ensures
            *v == self.value(),
    {
        let _ = guard;
        &self.data
    }

    /// Reads the protected value under the held write lock.
    pub fn read_exclusive(&self, guard: &SimpleRwLockWriteGuard) -> (v: &T)
        requires
            self.spec_write_count() == 1,
        ensures
            *v == self.value(),
    {
        let _ = guard;
        &self.data
    }

    /// Replaces the protected value under the held write lock.
    pub fn write(&mut self, guard: &SimpleRwLockWriteGuard, v: T)
        requires
            old(self).spec_write_count() == 1,
        ensures
            final(self).value() == v,
            final(self).spec_read_count() == old(self).spec_read_count(),
            final(self).spec_write_count() == old(self).spec_write_count(),
    {
        let _ = guard;
        self.data = v;
    }

    /// NOTE THAT THIS IS JUST A SNAPSHOT DURING THE FUNCTION CALL!
    fn can_write(&self) -> (b: bool)
        ensures
            b == self.spec_can_write(),
    {
        self.read_count == 0 && self.write_count == 0
    }

    fn can_read(&self) -> (b: bool)
        ensures
            b == self.spec_can_read(),
    {
        self.write_count == 0
    }
}

} // verus!
