use vstd::prelude::*;

verus! {

/// Where a job stands.
#[derive(Debug, PartialEq, Eq, Structural, Clone, Copy)]
pub enum JobEventStatus {
    Requested,
    Pending,
    Completed,
    Canceled,
}

impl Default for JobEventStatus {
    fn default() -> (status: Self)
        ensures
            status == JobEventStatus::Requested,
    {
        JobEventStatus::Requested
    }
}

impl JobEventStatus {
    /// Returns `true` if the job event status is `Requested`.
    #[must_use]
    pub fn is_requested(&self) -> (yes: bool)
        ensures
            yes == (*self is Requested),
    {
        matches!(self, Self::Requested)
    }

    /// Returns `true` if the job event status is `Pending`.
    #[must_use]
    pub fn is_pending(&self) -> (yes: bool)
        ensures
            yes == (*self is Pending),
    {
        matches!(self, Self::Pending)
    }

    /// Returns `true` if the job event status is `Completed`.
    #[must_use]
    pub fn is_completed(&self) -> (yes: bool)
        ensures
            yes == (*self is Completed),
    {
        matches!(self, Self::Completed)
    }

    /// Returns `true` if the job event status is `Canceled`.
    #[must_use]
    pub fn is_canceled(&self) -> (yes: bool)
        ensures
            yes == (*self is Canceled),
    {
        matches!(self, Self::Canceled)
    }
}

} // verus!
