use std::time::Duration;
use vstd::prelude::*;

verus! {

/// Claim modes governing work-stealing from other consumers.
#[derive(Clone, Copy, Debug)]
pub enum ClaimMode {
    /// Claim all pending entries from other consumers regardless of their idle
    /// time until none remain, while new entries are processed until shutdown.
    /// Suited to a group with at most one consumer that restarts: the previous
    /// consumer is known to be offline, so its pending work can be taken at once.
    ClaimAllPending,
    /// Process new entries until shutdown while the idle-pending backlog is
    /// cleared until none remain and `max_idle` has elapsed.
    ClearBacklog {
        /// Entries pending for longer than this change owner to this consumer.
        min_idle: Duration,
        /// How long after the reactor's start newly idle entries are still
        /// waited for between empty scans.
        max_idle: Option<Duration>,
    },
    /// Process new entries until shutdown while entries that other consumers
    /// left unacknowledged for the given time are claimed continuously.
    Autoclaim(Duration),
    /// Only process new entries.
    NewOnly,
}

} // verus!
