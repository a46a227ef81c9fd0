//! The ways in which claiming the singleton slot can fail.

use vstd::prelude::*;

verus! {

/// A fatal condition. None of them is retried: the launcher reports the
/// failure and exits with a non-zero status.
#[derive(Clone, Copy, Debug, PartialEq, Eq, Structural)]
pub enum GuardError {
    /// The location of the running executable, and with it the lock file's
    /// path, could not be determined.
    PathResolution,
    /// The lock file could not be created, opened, read or written.
    FileIo,
    /// The lock file holds bytes that are not a process identifier.
    CorruptLockContents,
    /// The operating system refused to terminate a holder that exists.
    Termination,
    /// The lock could not be taken even after the holder was dealt with.
    Reacquisition,
}

} // verus!
