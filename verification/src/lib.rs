//! The core of a reactor over a Redis stream with consumer groups: the entry
//! codec, the error taxonomy, the run context and the decisions that drive the
//! new-delivery and reclaim loops. The broker round trips themselves are left
//! to the embedding program; every decision taken between them is made here.

pub mod job;
pub mod logger;
pub mod reactor;

pub use job::data::JobEventData;
pub use job::event::{generate_job_events, JobEvent, JOB_TOPIC};
pub use job::status::JobEventStatus;
pub use reactor::broker::RawValue;
pub use reactor::claim_mode::ClaimMode;
pub use reactor::context::Context;
pub use reactor::error::{is_transient, ParseError, TaskError};
pub use reactor::field_map::FieldMap;
pub use reactor::processor::{
    ConsumerGroupState, DeliveryStatus, Dispatch, EventProcessor, GroupCreate, GroupRead,
    LoopPlan, ReclaimBounds, Step,
};
pub use reactor::reclaim::{ReclaimScan, ReclaimStep};
pub use reactor::stream_consumer::{settle, Settlement};
pub use reactor::stream_entry::{decode_fields, from_stream_id, xadd_map};
