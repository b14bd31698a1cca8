//! Verified core of a thin wrapper around the `pgcopydb` command-line
//! migration tool.
//!
//! The library covers everything about a run of the tool that is a pure
//! decision: assembling the argument vector for each supported subcommand
//! (`args`), formatting the tool's diagnostic lines for the host log, and
//! interpreting a finished run's exit status and captured primary output
//! (`runner`). The process I/O itself — spawning the executable, draining
//! its streams, waiting for it to exit — happens outside the library, which
//! only ever sees the plain values that cross that boundary.

pub mod args;
pub mod runner;
