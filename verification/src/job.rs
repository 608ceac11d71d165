//! The events of the hotel's jobs.

pub mod data;
pub mod event;
pub mod status;
