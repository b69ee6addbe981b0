//! Severity levels of logging records.

use vstd::prelude::*;

verus! {

/// Severity of a logging record, most severe first.
#[derive(Clone, Copy, Debug, Hash, PartialEq, Eq, Structural)]
pub enum Level {
    /// The program is likely beyond recovery.
    Critical,
    /// An operation failed.
    Error,
    /// Something unexpected that the program can live with.
    Warning,
    /// Ordinary operational messages.
    Info,
    /// Diagnostics for developers.
    Debug,
    /// The most detailed diagnostics.
    Trace,
}

} // verus!
