//! Single-instance coordination for a launcher process.
//!
//! A launcher claims a well-known lock file when it starts. Whoever holds the
//! advisory lock on that file is the running instance; the file's bytes name
//! the process that registered last. A newcomer that finds the lock taken
//! terminates the recorded holder, takes the lock itself and records its own
//! process identifier.
//!
//! The crate holds the decisions of that protocol and leaves the file handling
//! to its caller: [`protocol`] says, for each outcome of an operating-system
//! step, what the guard does next; [`pid`] reads and writes the lock file's
//! contents; [`terminate`] asks the operating system to end a process.
//! [`laws`] states what holds of every run of one guard, and [`exclusion`]
//! what holds of several launchers on one machine.

pub mod error;
pub mod exclusion;
pub mod laws;
pub mod pid;
pub mod protocol;
pub mod terminate;
