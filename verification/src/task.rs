//! Task definitions, task runs and how a task is executed.

use std::collections::HashMap;

use vstd::prelude::*;

use crate::pipeline::UtcTimestamp;
use crate::status::{TaskRunStatus, TaskStatus};

verus! {

/// How a task's worker process is started on the local machine.
#[derive(Clone, Debug)]
pub struct LocalProcessExecutionContext {
    /// The program followed by its first arguments.
    pub entry_point: Vec<String>,
    /// Further arguments, passed after those of `entry_point`.
    pub args: Vec<String>,
    /// Environment variables of the process.
    pub env_vars: HashMap<String, String>,
    /// How long the process may run.
    pub exec_timeout: Option<TimeSpan>,
}

/// A span of time: whole seconds and the nanoseconds beyond them.
#[derive(Clone, Copy, Debug, PartialEq, Eq, Structural)]
pub struct TimeSpan {
    pub secs: u64,
    pub nanos: u32,
}

impl TimeSpan {
    /// The length of the span in nanoseconds.
    pub open spec fn total_nanos(&self) -> int {
        self.secs * 1_000_000_000 + self.nanos
    }

    /// A span of whole seconds.
    pub fn from_secs(secs: u64) -> (t: TimeSpan)
        ensures
            t.secs == secs,
            t.nanos == 0,
    {
        TimeSpan { secs, nanos: 0 }
    }
}

/// Where and how a task runs.
#[derive(Clone, Debug)]
pub enum ExecutionContext {
    LocalProcess(LocalProcessExecutionContext),
}

/// The kinds of execution context that an execution manager can serve.
#[derive(Clone, Copy, Debug, PartialEq, Eq, Structural)]
pub enum ExecutionContextKind {
    LocalProcess,
}

impl ExecutionContext {
    /// The kind of this context.
    pub open spec fn spec_kind(&self) -> ExecutionContextKind {
        match self {
            ExecutionContext::LocalProcess(_) => ExecutionContextKind::LocalProcess,
        }
    }

    /// The kind of this context.
    pub fn kind(&self) -> (k: ExecutionContextKind)
        ensures
            k == self.spec_kind(),
    {
        match self {
            ExecutionContext::LocalProcess(_) => ExecutionContextKind::LocalProcess,
        }
    }
}

/// One task of a pipeline.
#[derive(Clone, Debug)]
pub struct TaskDefinition {
    pub id: u128,
    pub pipeline_def_id: u128,
    pub name: String,
    pub description: Option<String>,
    pub execution_ctx: ExecutionContext,
    pub max_attempts: Option<i32>,
    /// The tasks that must succeed before this one runs.
    pub depends_on: Vec<u128>,
}

/// A data dependency between an output of one task and an input of another.
#[derive(Clone, Debug)]
pub struct TaskDependency {
    pub pipeline_id: u128,
    pub source_task_definition_id: u128,
    pub source_output_name: String,
    pub target_task_definition_id: u128,
    pub target_input_name: String,
}

/// A task of a pipeline run, as stored.
#[derive(Debug)]
pub struct TaskInstance {
    pub id: u128,
    pub run_id: u128,
    pub definition_id: u128,
    pub name: String,
    pub status: TaskStatus,
    pub attempts: i32,
    pub start_time: Option<UtcTimestamp>,
    pub end_time: Option<UtcTimestamp>,
    pub worker_id: Option<u128>,
    pub output_metadata: Option<serde_json::Value>,
    pub error_data: Option<serde_json::Value>,
    pub last_heartbeat: Option<UtcTimestamp>,
    pub created_at: UtcTimestamp,
    pub updated_at: UtcTimestamp,
}

/// One run of a task within a pipeline run, as stored.
#[derive(Debug)]
pub struct TaskRun {
    pub id: u128,
    pub run_id: u128,
    pub task_def_id: u128,
    pub status: TaskRunStatus,
    pub attempts: i32,
    pub start_time: Option<UtcTimestamp>,
    pub end_time: Option<UtcTimestamp>,
    pub output_metadata: Option<serde_json::Value>,
    pub created_at: UtcTimestamp,
    pub updated_at: UtcTimestamp,
}

} // verus!
