//! Error codes reported by the operating system.

use vstd::prelude::*;

verus! {

/// `EINVAL`: an argument was invalid.
pub const EINVAL: i32 = 22;

/// An error reported by the operating system, held as its `errno` value.
#[derive(Debug, Clone, Copy, PartialEq, Eq, Structural)]
pub struct Error(i32);

impl Error {
    /// The `errno` value this error carries.
    pub closed spec fn raw(self) -> i32 {
        self.0
    }

    /// Builds the error that carries the `errno` value `raw`.
    pub fn from_raw_os_error(raw: i32) -> (e: Error)
        ensures
            e.raw() == raw,
    {
        Error(raw)
    }

    /// The `errno` value of this error.
    pub fn raw_os_error(&self) -> (raw: i32)
        ensures
            raw == self.raw(),
    {
        self.0
    }

    /// The error that the calling thread's `errno` holds now.
    pub fn last_os_error() -> (e: Error) {
        Error(current_errno())
    }

    /// Two errors are equal exactly when they carry the same `errno` value.
    pub proof fn lemma_raw_determines(a: Error, b: Error)
        ensures
            a == b <==> a.raw() == b.raw(),
    {
    }
}

/// Calls `errno::errno` and hands back the `errno` value of the calling
/// thread. The value is whatever the last failing libc call left there, so
/// nothing is stated of it.
#[verifier::external_body]
pub(crate) fn current_errno() -> (code: i32) {
    errno::errno().0
}

} // verus!
