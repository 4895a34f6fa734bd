//! Error kinds reported by the futex engine, and their POSIX errno values.

use vstd::prelude::*;

verus! {

/// The outcomes by which a futex call can fail.
///
/// None of these is fatal: every error propagates to the syscall boundary
/// as a negative return code and leaves the table without partial effects.
#[derive(Clone, Copy, Debug, PartialEq, Eq, Structural)]
pub enum FutexError {
    /// Malformed operation code or unknown flag bits in the operation word.
    InvalidInput,
    /// A recognized futex operation that this engine does not implement.
    Unsupported,
    /// The watched value did not match the expected value at check time;
    /// the caller never entered the wait queue.
    WouldBlock,
    /// A timed wait's deadline elapsed with no matching wake.
    TimedOut,
}

impl FutexError {
    /// The Linux errno that stands for this error kind.
    pub open spec fn errno_spec(self) -> i32 {
        match self {
            FutexError::InvalidInput => 22,
            FutexError::Unsupported => 38,
            FutexError::WouldBlock => 11,
            FutexError::TimedOut => 110,
        }
    }

    /// Returns the Linux errno for this error: EINVAL, ENOSYS, EAGAIN or ETIMEDOUT.
    pub fn errno(&self) -> (r: i32)
        ensures
            r == self.errno_spec(),
            1 <= r <= 110,
    {
        match self {
            FutexError::InvalidInput => 22,
            FutexError::Unsupported => 38,
            FutexError::WouldBlock => 11,
            FutexError::TimedOut => 110,
        }
    }
}

} // verus!
