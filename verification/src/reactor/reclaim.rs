use crate::reactor::broker::{into_entries, range_entries};
use crate::reactor::clock::{divide, duration_div, duration_nanos, elapsed_between, longer, now};
use crate::reactor::processor::{DeliveryStatus, Dispatch, EventProcessor, ReclaimBounds};
use redis::streams::{StreamId, StreamRangeReply};
use std::time::{Duration, SystemTime};
use vstd::prelude::*;

verus! {

/// What follows one reply of the reclaim loop.
#[derive(Debug)]
pub enum ReclaimStep {
    /// Hand the claimed entries to the consumer, then scan on.
    Dispatch(Dispatch),
    /// Nothing was claimed: scan on after a pause of this length, or at once
    /// where shutdown is asked for during the pause.
    Sleep(Duration),
    /// Nothing was claimed: scan on at once.
    Rescan,
}

/// Whether the time allowed for waiting on newly idle entries is used up:
/// there is a limit, the time since the loop began is known, and it is longer
/// than the limit.
pub open spec fn budget_spent(max_idle: Option<Duration>, elapsed: Option<Duration>) -> bool {
    match (max_idle, elapsed) {
        (Some(limit), Some(passed)) => duration_nanos(passed) > duration_nanos(limit),
        _ => false,
    }
}

/// What follows an empty batch, `elapsed` after the loop began: a pause of a
/// quarter of `min_idle`, unless the time for waiting is used up.
pub open spec fn pause_after(bounds: ReclaimBounds, elapsed: Option<Duration>) -> ReclaimStep {
    match duration_div(bounds.min_idle, 4) {
        Some(pause) => if budget_spent(bounds.max_idle, elapsed) {
            ReclaimStep::Rescan
        } else {
            ReclaimStep::Sleep(pause)
        },
        None => ReclaimStep::Rescan,
    }
}

/// What follows a batch of claimed entries, `elapsed` after the loop began.
pub open spec fn step_after(
    bounds: ReclaimBounds,
    claimed: Vec<StreamId>,
    elapsed: Option<Duration>,
) -> ReclaimStep {
    if claimed@.len() > 0 {
        ReclaimStep::Dispatch(Dispatch { entries: claimed, status: DeliveryStatus::MinIdleElapsed })
    } else {
        pause_after(bounds, elapsed)
    }
}

/// Claimed entries are always dispatched, all of them and as reclaimed ones,
/// whatever the bounds and the clock. After an empty batch a scan whose time
/// for waiting is used up goes on at once; any other pauses for a quarter of
/// `min_idle`, and a scan without a limit does so whatever the clock says.
pub proof fn lemma_reclaim_steps(
    bounds: ReclaimBounds,
    claimed: Vec<StreamId>,
    elapsed: Option<Duration>,
)
    ensures
        claimed@.len() > 0 ==> step_after(bounds, claimed, elapsed) == ReclaimStep::Dispatch(
            Dispatch { entries: claimed, status: DeliveryStatus::MinIdleElapsed },
        ),
        claimed@.len() == 0 && budget_spent(bounds.max_idle, elapsed) ==> step_after(
            bounds,
            claimed,
            elapsed,
        ) == ReclaimStep::Rescan,
        claimed@.len() == 0 && !budget_spent(bounds.max_idle, elapsed) && duration_div(
            bounds.min_idle,
            4,
        ) is Some ==> step_after(bounds, claimed, elapsed) == ReclaimStep::Sleep(
            duration_div(bounds.min_idle, 4).unwrap(),
        ),
        bounds.max_idle is None ==> step_after(bounds, claimed, elapsed) == step_after(
            bounds,
            claimed,
            None,
        ),
{
}

/// What follows a batch of claimed entries, `elapsed` after the loop began:
/// entries are dispatched as reclaimed ones; an empty batch is followed by a
/// pause of a quarter of `min_idle`, or by none once `max_idle` has passed.
pub fn reclaim_step(bounds: &ReclaimBounds, claimed: Vec<StreamId>, elapsed: Option<Duration>) -> (step:
    ReclaimStep)
    ensures
        step == step_after(*bounds, claimed, elapsed),
{
    if claimed.len() > 0 {
        return ReclaimStep::Dispatch(
            Dispatch { entries: claimed, status: DeliveryStatus::MinIdleElapsed },
        );
    }
    match divide(&bounds.min_idle, 4) {
        Some(pause) => {
            let spent = match (&bounds.max_idle, &elapsed) {
                (Some(limit), Some(passed)) => longer(passed, limit),
                _ => false,
            };
            if spent {
                ReclaimStep::Rescan
            } else {
                ReclaimStep::Sleep(pause)
            }
        },
        None => ReclaimStep::Rescan,
    }
}

/// One run of the reclaim loop: where the scan of the pending entries stands,
/// when it began, and its bounds.
#[derive(Debug)]
pub struct ReclaimScan {
    cursor: String,
    started: SystemTime,
    bounds: ReclaimBounds,
}

impl ReclaimScan {
    /// The cursor from which the next batch is claimed.
    pub closed spec fn position(&self) -> Seq<char> {
        self.cursor@
    }

    /// The bounds of the scan.
    pub closed spec fn limits(&self) -> ReclaimBounds {
        self.bounds
    }

    /// A scan from the start of the pending entries, beginning now.
    pub fn begin(bounds: ReclaimBounds) -> (scan: Self)
        ensures
            scan.position() == "0-0"@,
            scan.limits() == bounds,
    {
        ReclaimScan { cursor: "0-0".to_owned(), started: now(), bounds }
    }

    pub fn cursor(&self) -> (cursor: &str)
        ensures
            cursor@ == self.position(),
    {
        self.cursor.as_str()
    }

    pub fn bounds(&self) -> (bounds: &ReclaimBounds)
        ensures
            *bounds == self.limits(),
    {
        &self.bounds
    }

    /// Takes in one reply of the broker: the scan moves to the cursor that the
    /// broker handed back, whatever else the reply holds, and the claimed
    /// entries are dispatched. After an empty batch the clock decides between
    /// a pause and none; without a `max_idle` it is always a pause.
    pub fn advance(&mut self, next_cursor: String, reply: StreamRangeReply) -> (step: ReclaimStep)
        ensures
            final(self).position() == next_cursor@,
            final(self).limits() == old(self).limits(),
            range_entries(reply).len() > 0 ==> step is Dispatch,
            step matches ReclaimStep::Dispatch(d) ==> d.entries@ == range_entries(reply),
            step matches ReclaimStep::Dispatch(d) ==> d.status == DeliveryStatus::MinIdleElapsed,
            range_entries(reply).len() == 0 ==> step == pause_after(old(self).limits(), None) || (
            step == ReclaimStep::Rescan && old(self).limits().max_idle is Some),
    {
        self.cursor = next_cursor;
        let claimed = into_entries(reply);
        let elapsed = elapsed_between(&now(), &self.started);
        reclaim_step(&self.bounds, claimed, elapsed)
    }
}

impl<'a> EventProcessor<'a> {
    /// Begins a run of the reclaim loop under the given bounds.
    pub fn process_idle_pending(&self, min_idle: &Duration, max_idle: &Option<Duration>) -> (scan:
        ReclaimScan)
        ensures
            scan.position() == "0-0"@,
            scan.limits() == (ReclaimBounds { min_idle: *min_idle, max_idle: *max_idle }),
    {
        ReclaimScan::begin(ReclaimBounds { min_idle: *min_idle, max_idle: *max_idle })
    }
}

} // verus!
