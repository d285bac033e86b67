//! The event log.

use vstd::prelude::*;

use crate::pipeline::UtcTimestamp;
use crate::status::EventType;

verus! {

/// An entry of the event log.
#[derive(Debug)]
pub struct EventLogRecord {
    pub event_id: i64,
    pub run_id: Option<u128>,
    pub task_id: Option<u128>,
    pub timestamp: UtcTimestamp,
    pub event_type: EventType,
    pub message: Option<String>,
    pub metadata: Option<serde_json::Value>,
}

} // verus!
