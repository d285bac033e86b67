//! Pipeline definitions.

use vstd::prelude::*;

use crate::status::{PipelineBackend, PipelineRunBackend, PipelineRunStatus};
use crate::task::TaskDefinition;

verus! {

/// A point in time, in nanoseconds since the Unix epoch (UTC).
#[derive(Clone, Copy, Debug, PartialEq, Eq, Structural)]
pub struct UtcTimestamp {
    pub unix_nanos: i128,
}

/// Descriptive data of a pipeline.
#[derive(Debug)]
pub struct PipelineInfo {
    pub id: u128,
    pub name: String,
    pub description: String,
    pub default_backend: PipelineBackend,
    pub default_tags: Option<serde_json::Value>,
    pub metadata: Option<serde_json::Value>,
    pub created_at: UtcTimestamp,
    pub updated_at: UtcTimestamp,
}

/// A pipeline: its description and its tasks.
#[derive(Debug)]
pub struct PipelineDefinition {
    pub info: PipelineInfo,
    pub task_definitions: Vec<TaskDefinition>,
}

/// A run of a pipeline.
#[derive(Debug)]
pub struct PipelineRun {
    pub run_id: u128,
    pub definition_id: u128,
    pub status: PipelineRunStatus,
    /// The run's configuration.
    pub run_config: serde_json::Value,
    /// Tags of the run, such as `{"user": "xyz", "env": "prod"}`.
    pub tags: Option<serde_json::Value>,
    /// What started the run: a schedule, a sensor or a user.
    pub trigger_info: Option<serde_json::Value>,
    pub start_time: Option<UtcTimestamp>,
    pub end_time: Option<UtcTimestamp>,
    pub created_at: UtcTimestamp,
    pub updated_at: UtcTimestamp,
}

/// The configuration of a pipeline run.
#[derive(Debug)]
pub struct PipelineRunConfig {
    pub default_backend: PipelineRunBackend,
    pub default_tags: Option<serde_json::Value>,
    pub metadata: Option<serde_json::Value>,
}

} // verus!
