use crate::job::data::JobEventData;
use crate::job::status::JobEventStatus;
use vstd::prelude::*;

verus! {

/// The stream that job events go to.
pub const JOB_TOPIC: &'static str = "jobs";

/// One event in the life of a job.
#[derive(Debug, Clone, Copy, PartialEq, Eq, Structural)]
pub struct JobEvent {
    pub status: JobEventStatus,
    pub room: u32,
    pub data: JobEventData,
}

impl Default for JobEvent {
    fn default() -> (event: Self)
        ensures
            event == requested(JobEventData::RoomClean {}),
    {
        JobEvent { status: JobEventStatus::Requested, room: 0, data: JobEventData::RoomClean {} }
    }
}

/// A job that was just requested, not yet for any room.
pub open spec fn requested(data: JobEventData) -> JobEvent {
    JobEvent { status: JobEventStatus::Requested, room: 0, data }
}

/// One requested job of every kind, in the order of the kinds.
pub fn generate_job_events() -> (events: Vec<JobEvent>)
    ensures
        events@ == seq![
            requested(JobEventData::RoomClean {}),
            requested(JobEventData::TaxiOrder {}),
            requested(JobEventData::ExtraTowels {}),
            requested(JobEventData::ExtraPillows {}),
            requested(JobEventData::FoodOrder {}),
        ],
{
    let mut events = Vec::new();
    events.push(JobEvent { data: JobEventData::RoomClean {}, ..JobEvent::default() });
    events.push(JobEvent { data: JobEventData::TaxiOrder {}, ..JobEvent::default() });
    events.push(JobEvent { data: JobEventData::ExtraTowels {}, ..JobEvent::default() });
    events.push(JobEvent { data: JobEventData::ExtraPillows {}, ..JobEvent::default() });
    events.push(JobEvent { data: JobEventData::FoodOrder {}, ..JobEvent::default() });
    assert(events@ =~= seq![
        requested(JobEventData::RoomClean {}),
        requested(JobEventData::TaxiOrder {}),
        requested(JobEventData::ExtraTowels {}),
        requested(JobEventData::ExtraPillows {}),
        requested(JobEventData::FoodOrder {}),
    ]);
    events
}

} // verus!
