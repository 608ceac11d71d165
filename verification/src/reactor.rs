//! The reactor: its context, its codec, its errors, and the decisions of its
//! two loops.

pub mod broker;
pub mod claim_mode;
pub mod clock;
pub mod context;
pub mod error;
pub mod field_map;
pub mod json;
pub mod processor;
pub mod reclaim;
pub mod stream_consumer;
pub mod stream_entry;
pub mod text;
