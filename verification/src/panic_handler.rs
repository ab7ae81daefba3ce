//! Panic context bookkeeping.
//!
//! When a panic carries a known [`BootError`], the error is stored here
//! before the panic is raised, so that the reporting path can place the
//! specific error code in a register even if printing the message fails.
//! The reporting itself (formatting the panic message and halting the
//! machine) is the embedding program's concern.

use vstd::prelude::*;

use crate::error::BootError;
use crate::mutex::SimpleMutex;

verus! {

/// Holds the contextual error for a panic, if one was recorded.
pub struct PanicHandler {
    panic_error_code: SimpleMutex<Option<BootError>>,
}

impl PanicHandler {
    /// The lock around the recorded error.
    pub closed spec fn spec_panic_error_code(&self) -> SimpleMutex<Option<BootError>> {
        self.panic_error_code
    }

    /// A fresh handler with no error recorded and its lock free.
    pub fn new() -> (h: PanicHandler)
        ensures
            !h.spec_panic_error_code().is_locked(),
            h.spec_panic_error_code().value() == None::<BootError>,
    {
        PanicHandler { panic_error_code: SimpleMutex::new(None) }
    }

    /// The lock holding the recorded error, for the reporting path to read
    /// and for the panic path to fill.
    pub fn panic_error_code(&self) -> (m: &SimpleMutex<Option<BootError>>)
        ensures
            *m == self.spec_panic_error_code(),
    {
        &self.panic_error_code
    }

    /// Records the contextual error for an upcoming panic, under the lock.
    pub fn record_error(&mut self, error: BootError)
        requires
            !old(self).spec_panic_error_code().is_locked(),
        ensures
            !final(self).spec_panic_error_code().is_locked(),
            final(self).spec_panic_error_code().value() == Some(error),
    {
        let guard = self.panic_error_code.lock();
        self.panic_error_code.set(&guard, Some(error));
        self.panic_error_code.unlock(guard);
    }

    /// The error the reporting path should announce: the recorded one, or
    /// the generic panic error when none was recorded. Reads under the lock.
    pub fn error_to_report(&mut self) -> (error: BootError)
        requires
            !old(self).spec_panic_error_code().is_locked(),
        ensures
            !final(self).spec_panic_error_code().is_locked(),
            final(self).spec_panic_error_code().value() == old(
                self,
            ).spec_panic_error_code().value(),
            error == (if old(self).spec_panic_error_code().value() is Some {
                old(self).spec_panic_error_code().value()->0
            } else {
                BootError::PanicGeneric
            }),
    {
        let guard = self.panic_error_code.lock();
        let recorded = *self.panic_error_code.get();
        self.panic_error_code.unlock(guard);
        match recorded {
            Some(error) => error,
            None => BootError::PanicGeneric,
        }
    }
}

} // verus!
