//! A local development file server core: an exclusion-aware directory
//! scanner, a marker-file reconciliation state machine, a bounded-buffer
//! notification fan-out, and a path-containment-safe request router.

use vstd::prelude::*;

pub mod fanout;
pub mod fs;
pub mod reconcile;
pub mod router;
pub mod sse;
mod util;

verus! {

/// Error value reported to a status-page subscriber when the filesystem
/// event observer has shut down and no further events can be delivered.
pub struct FSEventObserverDisconnectedError;

impl FSEventObserverDisconnectedError {
    /// Human-readable description of this error.
    pub fn message(&self) -> (s: &'static str)
        ensures
            s@ == "FS Event Observer has disconnected"@,
    {
        "FS Event Observer has disconnected"
    }
}

} // verus!
