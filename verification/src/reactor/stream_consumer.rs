use crate::reactor::error::TaskError;
use std::fmt::Debug;
use vstd::prelude::*;

verus! {

/// What becomes of an entry at the broker once its handler has returned.
#[derive(Debug, PartialEq, Eq)]
pub enum Settlement<E> {
    /// Acknowledge the entry with `XACK`.
    Acknowledge,
    /// Remove the entry from the stream with `XDEL`, without acknowledging
    /// it.
    Delete,
    /// Leave the entry pending: it is neither acknowledged nor deleted.
    LeavePending,
    /// Log the handler's error and leave the entry pending, so that it can be
    /// reclaimed later. The loop goes on with the next entry.
    Report(E),
}

impl<E> Settlement<E> {
    /// Whether the entry is acknowledged.
    pub open spec fn acknowledges(self) -> bool {
        self is Acknowledge
    }

    /// Whether the entry is deleted.
    pub open spec fn deletes(self) -> bool {
        self is Delete
    }

    /// Whether the entry stays in the pending list of its group.
    pub open spec fn stays_pending(self) -> bool {
        self is LeavePending || self is Report
    }
}

/// The settlement that a handler's result asks for.
pub open spec fn settlement_of<E: Send + Debug>(outcome: Result<(), TaskError<E>>) -> Settlement<
    E,
> {
    match outcome {
        Ok(_) => Settlement::Acknowledge,
        Err(TaskError::Delete) => Settlement::Delete,
        Err(TaskError::SkipAcknowledgement) => Settlement::LeavePending,
        Err(TaskError::Error(e)) => Settlement::Report(e),
    }
}

/// What becomes of an entry whose handler returned `outcome`: success is
/// acknowledged; `Delete` deletes; `SkipAcknowledgement` and the handler's own
/// errors leave the entry pending, the latter being reported.
pub fn settle<E: Send + Debug>(outcome: Result<(), TaskError<E>>) -> (settlement: Settlement<E>)
    ensures
        settlement == settlement_of(outcome),
{
    match outcome {
        Ok(_) => Settlement::Acknowledge,
        Err(TaskError::Delete) => Settlement::Delete,
        Err(TaskError::SkipAcknowledgement) => Settlement::LeavePending,
        Err(TaskError::Error(e)) => Settlement::Report(e),
    }
}

/// Of acknowledging, deleting and leaving pending exactly one happens to an
/// entry. It is acknowledged only after success and deleted only on `Delete`;
/// after `SkipAcknowledgement` and after a handler's own error it stays
/// pending.
pub proof fn lemma_settlement<E: Send + Debug>(outcome: Result<(), TaskError<E>>)
    ensures
        settlement_of(outcome).acknowledges() <==> outcome is Ok,
        settlement_of(outcome).deletes() <==> outcome == Err::<(), TaskError<E>>(TaskError::Delete),
        settlement_of(outcome).stays_pending() <==> !settlement_of(outcome).acknowledges()
            && !settlement_of(outcome).deletes(),
        outcome matches Err(TaskError::SkipAcknowledgement) ==> settlement_of(outcome)
            == Settlement::<E>::LeavePending,
        outcome matches Err(TaskError::Error(e)) ==> settlement_of(outcome) == Settlement::Report(
            e,
        ),
{
}

} // verus!
